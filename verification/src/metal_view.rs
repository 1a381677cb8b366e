//! The view that presents what its delegate draws.
//!
//! The view owns the frame timer, the drawable and the render-pass descriptor
//! of the frame in progress, the drawable size and the clear colour. Its
//! operations return, in order, what they did to the world outside: what the
//! caller has to do to the backing layer, to the timer's hardware and to the
//! objects the view holds, and what the delegate was told.

use crate::display_link::creation_error;
use crate::display_link::request_actions;
use crate::display_link::CVReturn;
use crate::display_link::DisplayLink;
use crate::display_link::DisplayLinkError;
use crate::display_link::DisplayLinkModel;
use crate::display_link::DisplayLinkRequest;
use crate::display_link::DisplayLinkState;
use crate::display_link::TimerAction;
use crate::object::ObjectId;
use crate::renderer::frame_commands;
use crate::renderer::GpuCommand;
use crate::renderer::Renderer;
use crate::renderer::RendererModel;
use crate::vector_types::vector_uint2;
use vstd::multiset::Multiset;
use vstd::prelude::*;

verus! {

/// Pixel format of a texture, by its number in the GPU API.
pub type MTLPixelFormat = u64;

/// The pixel format of a view without a backing layer: 8-bit BGRA.
pub const MTL_PIXEL_FORMAT_BGRA8_UNORM: MTLPixelFormat = 80;

/// The alpha of the clear colour of a new view: the bits of the 64-bit float
/// 1.0.
pub const OPAQUE_ALPHA_BITS: u64 = 0x3ff0_0000_0000_0000;

/// Index of the colour attachment that the view renders to.
pub const COLOR_ATTACHMENT_INDEX: usize = 0;

/// Size of a drawable, in pixels.
#[derive(Clone, Copy, PartialEq, Eq, Structural, Debug)]
pub struct DrawableSize {
    pub width: u32,
    pub height: u32,
}

/// A colour of four 64-bit float channels. Each field holds the bits of its
/// channel.
#[derive(Clone, Copy, PartialEq, Eq, Structural, Debug)]
pub struct ClearColor {
    pub red: u64,
    pub green: u64,
    pub blue: u64,
    pub alpha: u64,
}

/// What happens to an attachment when a render pass begins.
#[derive(Clone, Copy, PartialEq, Eq, Structural, Debug)]
pub enum LoadAction {
    DontCare,
    Load,
    Clear,
}

impl LoadAction {
    /// The number of the load action in the GPU API.
    pub open spec fn spec_code(self) -> u64 {
        match self {
            LoadAction::DontCare => 0,
            LoadAction::Load => 1,
            LoadAction::Clear => 2,
        }
    }

    /// The number of the load action in the GPU API.
    #[verifier::when_used_as_spec(spec_code)]
    pub fn code(self) -> (code: u64)
        ensures
            code == self.code(),
    {
        match self {
            LoadAction::DontCare => 0,
            LoadAction::Load => 1,
            LoadAction::Clear => 2,
        }
    }
}

/// One thing that an operation of the view did or asks for.
#[derive(Clone, Copy, PartialEq, Eq, Structural, Debug)]
pub enum ViewEffect {
    /// An operation on the timer's display link or event source.
    Timer(TimerAction),
    /// Hand the device to the backing layer.
    SetLayerDevice(ObjectId),
    /// Give the backing layer a new drawable size.
    SetLayerDrawableSize(DrawableSize),
    /// The delegate was told that the drawable size becomes `size`. At that
    /// moment the view still held `held`.
    DelegateSizeWillChange { held: DrawableSize, size: DrawableSize },
    /// Give up the view's reference to an object.
    Release(ObjectId),
    /// Take a reference to an object for the view.
    Retain(ObjectId),
    /// Make the texture of `drawable` the target of colour attachment
    /// `index` of `descriptor`.
    SetAttachmentTexture { descriptor: ObjectId, index: usize, drawable: ObjectId },
    /// Set what happens to colour attachment `index` of `descriptor` when
    /// the pass begins.
    SetAttachmentLoadAction { descriptor: ObjectId, index: usize, load_action: LoadAction },
    /// Set the colour that colour attachment `index` of `descriptor` is
    /// cleared to.
    SetAttachmentClearColor { descriptor: ObjectId, index: usize, clear_color: ClearColor },
}

/// What the view asks of the object that draws into it.
pub trait MetalViewDelegate: Sized {
    /// Called when the drawable size of the view is about to become `size`.
    fn metal_view_drawable_size_will_change(&mut self, size: DrawableSize);

    /// Called once per frame. The result is what is sent to the GPU to draw
    /// the frame into `render_pass_descriptor` and to present
    /// `current_drawable`; either may be nil.
    fn draw_in_metal_view(
        &self,
        render_pass_descriptor: ObjectId,
        current_drawable: ObjectId,
    ) -> Vec<GpuCommand>;
}

/// What one frame brings: the size of the view's backing store, and the
/// render-pass descriptor and the drawable that were made for the frame,
/// nil where one could not be had.
pub struct Frame {
    pub backing_size: DrawableSize,
    pub descriptor: ObjectId,
    pub drawable: ObjectId,
}

/// The clear colour of a new view: opaque black.
pub open spec fn opaque_black() -> ClearColor {
    ClearColor { red: 0, green: 0, blue: 0, alpha: OPAQUE_ALPHA_BITS }
}

/// The pixel format of the view: that of its backing layer, 8-bit BGRA
/// without one.
pub open spec fn color_pixel_format(layer_format: Option<MTLPixelFormat>) -> MTLPixelFormat {
    match layer_format {
        Some(format) => format,
        None => MTL_PIXEL_FORMAT_BGRA8_UNORM,
    }
}

/// `actions`, each as an effect of the view.
pub open spec fn timer_effects(actions: Seq<TimerAction>) -> Seq<ViewEffect> {
    Seq::new(actions.len(), |i: int| ViewEffect::Timer(actions[i]))
}

/// What a delegate asks of the timer: to start where there is one, to stop
/// where there is none.
pub open spec fn delegate_request(delegate: Option<RendererModel>) -> DisplayLinkRequest {
    if delegate is Some {
        DisplayLinkRequest::Start
    } else {
        DisplayLinkRequest::Stop
    }
}

/// What replacing the held object `current` by `new` does: `current` is
/// released first, then `new` is retained; nil is neither.
pub open spec fn replace_effects(current: ObjectId, new: ObjectId) -> Seq<ViewEffect> {
    (if current.is_nil() {
        Seq::<ViewEffect>::empty()
    } else {
        seq![ViewEffect::Release(current)]
    }) + (if new.is_nil() {
        Seq::<ViewEffect>::empty()
    } else {
        seq![ViewEffect::Retain(new)]
    })
}

/// How the first colour attachment of `descriptor` is set up for a frame:
/// it renders to the texture of `drawable`, where there is a drawable, and
/// begins the pass by clearing to `clear_color`. Nothing is set up without a
/// descriptor.
pub open spec fn attachment_effects(
    descriptor: ObjectId,
    drawable: ObjectId,
    clear_color: ClearColor,
) -> Seq<ViewEffect> {
    let clear = seq![
        ViewEffect::SetAttachmentLoadAction {
            descriptor,
            index: COLOR_ATTACHMENT_INDEX,
            load_action: LoadAction::Clear,
        },
        ViewEffect::SetAttachmentClearColor {
            descriptor,
            index: COLOR_ATTACHMENT_INDEX,
            clear_color,
        },
    ];
    if descriptor.is_nil() {
        Seq::empty()
    } else if drawable.is_nil() {
        clear
    } else {
        seq![
            ViewEffect::SetAttachmentTexture {
                descriptor,
                index: COLOR_ATTACHMENT_INDEX,
                drawable,
            },
        ] + clear
    }
}

/// The references that are held after `effects`, where `live` were held
/// before: each `Retain` adds one, each `Release` takes one away.
pub open spec fn live_after(live: Multiset<ObjectId>, effects: Seq<ViewEffect>) -> Multiset<
    ObjectId,
>
    decreases effects.len(),
{
    if effects.len() == 0 {
        live
    } else {
        let before = live_after(live, effects.drop_last());
        match effects.last() {
            ViewEffect::Retain(object) => before.insert(object),
            ViewEffect::Release(object) => before.remove(object),
            _ => before,
        }
    }
}

/// The one reference to `object`, none where it is nil.
pub open spec fn reference_to(object: ObjectId) -> Multiset<ObjectId> {
    if object.is_nil() {
        Multiset::empty()
    } else {
        Multiset::singleton(object)
    }
}

/// How often the delegate was told of a new size in `effects`.
pub open spec fn resize_notifications(effects: Seq<ViewEffect>) -> nat
    decreases effects.len(),
{
    if effects.len() == 0 {
        0
    } else if effects.last() is DelegateSizeWillChange {
        resize_notifications(effects.drop_last()) + 1
    } else {
        resize_notifications(effects.drop_last())
    }
}

/// What a view is.
pub struct MetalViewModel {
    pub timer: DisplayLinkModel,
    pub clear_color: ClearColor,
    pub delegate: Option<RendererModel>,
    pub device: ObjectId,
    pub enable_set_needs_display: bool,
    pub current_render_pass_descriptor: ObjectId,
    pub current_drawable: ObjectId,
    pub drawable_size: DrawableSize,
}

impl MetalViewModel {
    /// A new view: the timer stopped, no delegate, no device, nothing to draw
    /// into, cleared to opaque black.
    pub open spec fn initial(drawable_size: DrawableSize) -> MetalViewModel {
        MetalViewModel {
            timer: DisplayLinkModel::initial(),
            clear_color: opaque_black(),
            delegate: None,
            device: ObjectId(0),
            enable_set_needs_display: false,
            current_render_pass_descriptor: ObjectId(0),
            current_drawable: ObjectId(0),
            drawable_size,
        }
    }

    /// The timer runs exactly while there is a delegate, and is stopped
    /// otherwise.
    pub open spec fn wf(self) -> bool {
        &&& self.timer.wf()
        &&& self.delegate is Some ==> self.timer.state is Running
        &&& self.delegate is None ==> self.timer.state is Stopped
    }

    /// The view with `device`.
    pub open spec fn with_device(self, device: ObjectId) -> MetalViewModel {
        MetalViewModel { device, ..self }
    }

    /// What setting `device` asks for: the backing layer gets a device that
    /// is not nil.
    pub open spec fn device_effects(device: ObjectId) -> Seq<ViewEffect> {
        if device.is_nil() {
            Seq::empty()
        } else {
            seq![ViewEffect::SetLayerDevice(device)]
        }
    }

    /// The view with `delegate` in place of the one it had: attaching a
    /// delegate starts the timer, detaching stops it.
    pub open spec fn with_delegate(self, delegate: Option<RendererModel>) -> MetalViewModel {
        MetalViewModel { timer: self.timer.request(delegate_request(delegate)), delegate, ..self }
    }

    /// What taking `delegate` asks of the timer's hardware.
    pub open spec fn delegate_effects(self, delegate: Option<RendererModel>) -> Seq<ViewEffect> {
        timer_effects(request_actions(self.timer.state, delegate_request(delegate)))
    }

    /// The view with `size` as its drawable size. A delegate has taken a size
    /// that differs from the one held as the size of its viewport.
    pub open spec fn resized(self, size: DrawableSize) -> MetalViewModel {
        MetalViewModel {
            drawable_size: size,
            delegate: match self.delegate {
                Some(renderer) if size != self.drawable_size => Some(
                    RendererModel {
                        viewport_size: vector_uint2::new(size.width, size.height),
                        ..renderer
                    },
                ),
                _ => self.delegate,
            },
            ..self
        }
    }

    /// What setting the drawable size to `size` does: nothing where the view
    /// holds `size` already; else the backing layer gets the size, and then a
    /// delegate is told, while the view still holds the size it had.
    pub open spec fn resize_effects(self, size: DrawableSize) -> Seq<ViewEffect> {
        if size == self.drawable_size {
            Seq::empty()
        } else if self.delegate is Some {
            seq![
                ViewEffect::SetLayerDrawableSize(size),
                ViewEffect::DelegateSizeWillChange { held: self.drawable_size, size },
            ]
        } else {
            seq![ViewEffect::SetLayerDrawableSize(size)]
        }
    }

    /// The view with `descriptor` and `drawable` as the current ones.
    pub open spec fn with_frame_objects(self, descriptor: ObjectId, drawable: ObjectId)
        -> MetalViewModel {
        MetalViewModel {
            current_render_pass_descriptor: descriptor,
            current_drawable: drawable,
            ..self
        }
    }

    /// What taking `descriptor` and `drawable` as the current ones does: the
    /// descriptor held is replaced, then the drawable, and then the first
    /// colour attachment of the descriptor is set up.
    pub open spec fn frame_object_effects(self, descriptor: ObjectId, drawable: ObjectId) -> Seq<
        ViewEffect,
    > {
        replace_effects(self.current_render_pass_descriptor, descriptor) + replace_effects(
            self.current_drawable,
            drawable,
        ) + attachment_effects(descriptor, drawable, self.clear_color)
    }

    /// What the delegate sends to the GPU for the frame in progress; nothing
    /// without a delegate.
    pub open spec fn draw_commands(self) -> Seq<GpuCommand> {
        match self.delegate {
            Some(renderer) => frame_commands(
                renderer,
                self.current_render_pass_descriptor,
                self.current_drawable,
            ),
            None => Seq::empty(),
        }
    }

    /// The references that the view holds: one to the current descriptor and
    /// one to the current drawable, as far as there is one.
    pub open spec fn held(self) -> Multiset<ObjectId> {
        reference_to(self.current_render_pass_descriptor).add(reference_to(self.current_drawable))
    }

    /// The view after one frame: resized to the backing size, then given the
    /// frame's objects.
    pub open spec fn after_frame(self, frame: Frame) -> MetalViewModel {
        self.resized(frame.backing_size).with_frame_objects(frame.descriptor, frame.drawable)
    }

    /// What one frame does, up to the draw.
    pub open spec fn frame_effects(self, frame: Frame) -> Seq<ViewEffect> {
        self.resize_effects(frame.backing_size) + self.resized(
            frame.backing_size,
        ).frame_object_effects(frame.descriptor, frame.drawable)
    }

    /// The view after `frames`, first to last.
    pub open spec fn after_frames(self, frames: Seq<Frame>) -> MetalViewModel
        decreases frames.len(),
    {
        if frames.len() == 0 {
            self
        } else {
            self.after_frames(frames.drop_last()).after_frame(frames.last())
        }
    }

    /// What `frames` do, first to last.
    pub open spec fn frames_effects(self, frames: Seq<Frame>) -> Seq<ViewEffect>
        decreases frames.len(),
    {
        if frames.len() == 0 {
            Seq::empty()
        } else {
            self.frames_effects(frames.drop_last()) + self.after_frames(
                frames.drop_last(),
            ).frame_effects(frames.last())
        }
    }
}

/// The view of a delegate, if there is one.
pub open spec fn delegate_model(delegate: Option<Renderer>) -> Option<RendererModel> {
    match delegate {
        Some(renderer) => Some(renderer@),
        None => None,
    }
}

/// The state of a view that draws with Metal.
#[derive(Debug)]
pub struct RSMetalView {
    timer: DisplayLink,
    clear_color: ClearColor,
    delegate: Option<Renderer>,
    device: ObjectId,
    enable_set_needs_display: bool,
    current_render_pass_descriptor: ObjectId,
    current_drawable: ObjectId,
    drawable_size: DrawableSize,
}

impl View for RSMetalView {
    type V = MetalViewModel;

    closed spec fn view(&self) -> MetalViewModel {
        MetalViewModel {
            timer: self.timer@,
            clear_color: self.clear_color,
            delegate: delegate_model(self.delegate),
            device: self.device,
            enable_set_needs_display: self.enable_set_needs_display,
            current_render_pass_descriptor: self.current_render_pass_descriptor,
            current_drawable: self.current_drawable,
            drawable_size: self.drawable_size,
        }
    }
}

/// Wraps each action of the timer as an effect of the view.
fn wrap_timer_actions(actions: Vec<TimerAction>) -> (effects: Vec<ViewEffect>)
    ensures
        effects@ == timer_effects(actions@),
{
    let mut effects: Vec<ViewEffect> = Vec::new();
    let mut i: usize = 0;
    while i < actions.len()
        invariant
            i <= actions.len(),
            effects@ == timer_effects(actions@.take(i as int)),
        decreases actions.len() - i,
    {
        effects.push(ViewEffect::Timer(actions[i]));
        i = i + 1;
        assert(effects@ =~= timer_effects(actions@.take(i as int)));
    }
    assert(actions@.take(i as int) =~= actions@);
    effects
}

impl RSMetalView {
    #[verifier::type_invariant]
    spec fn inv(self) -> bool {
        self@.wf()
    }

    /// Creates the view. `connect` and `register` are what the display-link
    /// API answered for the view's timer, `drawable_size` is the size of the
    /// view's frame in pixels.
    ///
    /// Fails with the timer's error where the timer cannot be created: there
    /// is no view without a timer.
    pub fn init_with_coder(
        connect: CVReturn,
        register: Option<CVReturn>,
        drawable_size: DrawableSize,
    ) -> (created: Result<RSMetalView, DisplayLinkError>)
        ensures
            match created {
                Ok(view) => creation_error(connect, register) is None && view@
                    == MetalViewModel::initial(drawable_size),
                Err(error) => creation_error(connect, register) == Some(error),
            },
    {
        let timer = match DisplayLink::new_with_queue_and_callback(connect, register) {
            Ok(timer) => timer,
            Err(error) => {
                return Err(error);
            },
        };
        Ok(
            RSMetalView {
                timer,
                clear_color: ClearColor { red: 0, green: 0, blue: 0, alpha: OPAQUE_ALPHA_BITS },
                delegate: None,
                device: ObjectId::nil(),
                enable_set_needs_display: false,
                current_render_pass_descriptor: ObjectId::nil(),
                current_drawable: ObjectId::nil(),
                drawable_size,
            },
        )
    }

    /// The device of the view.
    pub fn get_device(&self) -> (device: ObjectId)
        ensures
            device == self@.device,
    {
        self.device
    }

    /// Sets the device of the view. A device that is not nil goes on to the
    /// backing layer.
    pub fn set_device_(&mut self, new_device: ObjectId) -> (effects: Vec<ViewEffect>)
        ensures
            final(self)@ == old(self)@.with_device(new_device),
            effects@ == MetalViewModel::device_effects(new_device),
    {
        proof {
            use_type_invariant(&*self);
        }
        self.device = new_device;
        let mut effects: Vec<ViewEffect> = Vec::new();
        if !new_device.is_nil() {
            effects.push(ViewEffect::SetLayerDevice(new_device));
        }
        effects
    }

    /// Whether the view redraws when it is marked as needing display.
    pub fn get_enable_set_needs_display(&self) -> (enabled: bool)
        ensures
            enabled == self@.enable_set_needs_display,
    {
        self.enable_set_needs_display
    }

    /// Sets whether the view redraws when it is marked as needing display.
    pub fn set_enable_set_needs_display_(&mut self, new_value: bool)
        ensures
            final(self)@ == (MetalViewModel { enable_set_needs_display: new_value, ..old(self)@ }),
    {
        proof {
            use_type_invariant(&*self);
        }
        self.enable_set_needs_display = new_value;
    }

    /// The delegate of the view.
    pub fn get_delegate(&self) -> (delegate: &Option<Renderer>)
        ensures
            delegate_model(*delegate) == self@.delegate,
    {
        &self.delegate
    }

    /// Replaces the delegate. With a delegate the timer is started, without
    /// one it is stopped: the view renders only while it has a delegate.
    pub fn set_delegate_(&mut self, new_delegate: Option<Renderer>) -> (effects: Vec<ViewEffect>)
        ensures
            final(self)@ == old(self)@.with_delegate(delegate_model(new_delegate)),
            effects@ == old(self)@.delegate_effects(delegate_model(new_delegate)),
    {
        let mut timer = self.timer;
        let actions = if new_delegate.is_some() {
            timer.start()
        } else {
            timer.stop()
        };
        *self = RSMetalView {
            timer,
            clear_color: self.clear_color,
            delegate: new_delegate,
            device: self.device,
            enable_set_needs_display: self.enable_set_needs_display,
            current_render_pass_descriptor: self.current_render_pass_descriptor,
            current_drawable: self.current_drawable,
            drawable_size: self.drawable_size,
        };
        wrap_timer_actions(actions)
    }

    /// The pixel format of the view, given that of its backing layer, if it
    /// has one.
    pub fn get_color_pixel_format(layer_format: Option<MTLPixelFormat>) -> (format: MTLPixelFormat)
        ensures
            format == color_pixel_format(layer_format),
    {
        match layer_format {
            Some(format) => format,
            None => MTL_PIXEL_FORMAT_BGRA8_UNORM,
        }
    }

    /// The drawable size of the view.
    pub fn get_drawable_size(&self) -> (size: DrawableSize)
        ensures
            size == self@.drawable_size,
    {
        self.drawable_size
    }

    /// Sets the drawable size. Where it differs from the size held, the
    /// backing layer gets it and the delegate is told, before the view takes
    /// it. The size held is `new_drawable_size` after every call.
    pub fn set_drawable_size_(&mut self, new_drawable_size: DrawableSize) -> (effects: Vec<
        ViewEffect,
    >)
        ensures
            final(self)@ == old(self)@.resized(new_drawable_size),
            final(self)@.drawable_size == new_drawable_size,
            effects@ == old(self)@.resize_effects(new_drawable_size),
    {
        proof {
            use_type_invariant(&*self);
        }
        let held = self.drawable_size;
        let mut effects: Vec<ViewEffect> = Vec::new();
        if new_drawable_size.height != held.height || new_drawable_size.width != held.width {
            effects.push(ViewEffect::SetLayerDrawableSize(new_drawable_size));
            match self.delegate {
                Some(mut delegate) => {
                    delegate.metal_view_drawable_size_will_change(new_drawable_size);
                    effects.push(
                        ViewEffect::DelegateSizeWillChange { held, size: new_drawable_size },
                    );
                    self.delegate = Some(delegate);
                },
                None => {},
            }
        }
        self.drawable_size = new_drawable_size;
        effects
    }

    /// The render-pass descriptor of the frame in progress, nil without one.
    pub fn get_current_render_pass_descriptor(&self) -> (descriptor: ObjectId)
        ensures
            descriptor == self@.current_render_pass_descriptor,
    {
        self.current_render_pass_descriptor
    }

    /// The drawable of the frame in progress, nil without one.
    pub fn get_current_drawable(&self) -> (drawable: ObjectId)
        ensures
            drawable == self@.current_drawable,
    {
        self.current_drawable
    }

    /// Sets the colour that a frame is cleared to.
    pub fn set_clear_color(&mut self, color: ClearColor)
        ensures
            final(self)@ == (MetalViewModel { clear_color: color, ..old(self)@ }),
    {
        proof {
            use_type_invariant(&*self);
        }
        self.clear_color = color;
    }

    /// Makes `render_descriptor` the current render-pass descriptor: the one
    /// held is released first, then the new one is retained.
    fn set_current_render_pass_descriptor(&mut self, render_descriptor: ObjectId) -> (effects:
        Vec<ViewEffect>)
        ensures
            final(self)@ == (MetalViewModel {
                current_render_pass_descriptor: render_descriptor,
                ..old(self)@
            }),
            effects@ == replace_effects(
                old(self)@.current_render_pass_descriptor,
                render_descriptor,
            ),
    {
        proof {
            use_type_invariant(&*self);
        }
        let mut effects: Vec<ViewEffect> = Vec::new();
        if !self.current_render_pass_descriptor.is_nil() {
            effects.push(ViewEffect::Release(self.current_render_pass_descriptor));
            self.current_render_pass_descriptor = ObjectId::nil();
        }
        if !render_descriptor.is_nil() {
            effects.push(ViewEffect::Retain(render_descriptor));
            self.current_render_pass_descriptor = render_descriptor;
        }
        effects
    }

    /// Makes `current_drawable` the current drawable: the one held is
    /// released first, then the new one is retained.
    fn set_current_drawable(&mut self, current_drawable: ObjectId) -> (effects: Vec<
        ViewEffect,
    >)
        ensures
            final(self)@ == (MetalViewModel { current_drawable, ..old(self)@ }),
            effects@ == replace_effects(old(self)@.current_drawable, current_drawable),
    {
        proof {
            use_type_invariant(&*self);
        }
        let mut effects: Vec<ViewEffect> = Vec::new();
        if !self.current_drawable.is_nil() {
            effects.push(ViewEffect::Release(self.current_drawable));
            self.current_drawable = ObjectId::nil();
        }
        if !current_drawable.is_nil() {
            effects.push(ViewEffect::Retain(current_drawable));
            self.current_drawable = current_drawable;
        }
        effects
    }

    /// Prepares the frame: `render_descriptor` is the descriptor made for it
    /// and `next_drawable` the drawable that the backing layer gave, nil
    /// where it gave none. Both replace what the view held, and the first
    /// colour attachment of the descriptor is bound to the drawable, to be
    /// cleared to the view's clear colour.
    pub fn set_up_delegate_drawing_state(
        &mut self,
        render_descriptor: ObjectId,
        next_drawable: ObjectId,
    ) -> (effects: Vec<ViewEffect>)
        ensures
            final(self)@ == old(self)@.with_frame_objects(render_descriptor, next_drawable),
            effects@ == old(self)@.frame_object_effects(render_descriptor, next_drawable),
    {
        let mut effects = self.set_current_render_pass_descriptor(render_descriptor);
        let mut drawable_effects = self.set_current_drawable(next_drawable);
        effects.append(&mut drawable_effects);
        if !render_descriptor.is_nil() {
            if !self.current_drawable.is_nil() {
                effects.push(
                    ViewEffect::SetAttachmentTexture {
                        descriptor: render_descriptor,
                        index: COLOR_ATTACHMENT_INDEX,
                        drawable: self.current_drawable,
                    },
                );
            }
            effects.push(
                ViewEffect::SetAttachmentLoadAction {
                    descriptor: render_descriptor,
                    index: COLOR_ATTACHMENT_INDEX,
                    load_action: LoadAction::Clear,
                },
            );
            effects.push(
                ViewEffect::SetAttachmentClearColor {
                    descriptor: render_descriptor,
                    index: COLOR_ATTACHMENT_INDEX,
                    clear_color: self.clear_color,
                },
            );
        }
        effects
    }

    /// Has the delegate draw the frame in progress. The result is what goes
    /// to the GPU: nothing without a delegate, and nothing without a current
    /// render-pass descriptor.
    pub fn draw(&self) -> (commands: Vec<GpuCommand>)
        ensures
            commands@ == self@.draw_commands(),
    {
        match &self.delegate {
            Some(renderer) => renderer.draw_in_metal_view(
                self.current_render_pass_descriptor,
                self.current_drawable,
            ),
            None => Vec::new(),
        }
    }

    /// The state of the view's timer: `Running` with a delegate, `Stopped`
    /// without one.
    pub fn timer_state(&self) -> (state: DisplayLinkState)
        ensures
            state == self@.timer.state,
            self@.wf(),
    {
        proof {
            use_type_invariant(self);
        }
        self.timer.state()
    }

    /// Merges a signal of weight `data` into the timer of the view.
    pub fn merge_signal(&mut self, data: u64)
        ensures
            final(self)@ == (MetalViewModel { timer: old(self)@.timer.merge(data), ..old(self)@ }),
    {
        proof {
            use_type_invariant(&*self);
        }
        let mut timer = self.timer;
        timer.merge_signal(data);
        self.timer = timer;
    }

    /// One turn of the queue for the timer of the view: the frame event that
    /// is due, if any. A frame is to be produced exactly when the result is
    /// not `None`, and that happens only while the view has a delegate.
    pub fn next_frame_event(&mut self) -> (event: Option<u64>)
        ensures
            event == old(self)@.timer.drained(),
            final(self)@ == (MetalViewModel { timer: old(self)@.timer.after_drain(), ..old(self)@ }),
            event is Some ==> final(self)@.delegate is Some,
    {
        proof {
            use_type_invariant(&*self);
        }
        let mut timer = self.timer;
        let event = timer.drain();
        self.timer = timer;
        event
    }
}

/// A new view is well formed, and every operation keeps a view well formed:
/// the timer runs exactly while the view has a delegate.
pub proof fn lemma_operations_keep_wf(
    view: MetalViewModel,
    size: DrawableSize,
    device: ObjectId,
    delegate: Option<RendererModel>,
    descriptor: ObjectId,
    drawable: ObjectId,
    data: u64,
)
    ensures
        MetalViewModel::initial(size).wf(),
        view.timer.wf() ==> view.with_delegate(delegate).wf(),
        view.wf() ==> {
            &&& view.with_device(device).wf()
            &&& view.resized(size).wf()
            &&& view.with_frame_objects(descriptor, drawable).wf()
            &&& (MetalViewModel { timer: view.timer.merge(data), ..view }).wf()
            &&& (MetalViewModel { timer: view.timer.after_drain(), ..view }).wf()
        },
{
}

/// The view renders only while it has a delegate: without one a well-formed
/// view gets no frame event, whatever was merged, and draws nothing.
pub proof fn lemma_no_delegate_no_frames(view: MetalViewModel, data: u64)
    requires
        view.wf(),
        view.delegate is None,
    ensures
        view.timer.merge(data).drained() is None,
        view.draw_commands() =~= Seq::<GpuCommand>::empty(),
{
}

/// Setting the size that the view holds does nothing: after the drawable size
/// was set to `size`, setting it to `size` again changes nothing and tells
/// nobody, so the two calls together tell the delegate at most once.
pub proof fn lemma_resize_is_idempotent(view: MetalViewModel, size: DrawableSize)
    ensures
        view.resized(size).resized(size) == view.resized(size),
        view.resized(size).resize_effects(size) =~= Seq::<ViewEffect>::empty(),
        resize_notifications(view.resize_effects(size)) + resize_notifications(
            view.resized(size).resize_effects(size),
        ) <= 1,
{
    lemma_resize_tells_before_it_stores(view, size);
}

/// The order of a resize. The view holds `size` afterwards. The delegate is
/// told exactly once where the size changes and there is a delegate, and not
/// at all otherwise. When it is told, the view still holds the size from
/// before the call, the backing layer has the new size already, and the
/// delegate takes the new size as the size of its viewport.
pub proof fn lemma_resize_tells_before_it_stores(view: MetalViewModel, size: DrawableSize)
    ensures
        view.resized(size).drawable_size == size,
        resize_notifications(view.resize_effects(size)) == (if size != view.drawable_size
            && view.delegate is Some {
            1nat
        } else {
            0nat
        }),
        forall|i: int|
            0 <= i < view.resize_effects(size).len() && (
            #[trigger] view.resize_effects(size)[i]) is DelegateSizeWillChange ==> {
                &&& view.resize_effects(size)[i] == (ViewEffect::DelegateSizeWillChange {
                    held: view.drawable_size,
                    size,
                })
                &&& view.drawable_size != size
                &&& i == 1
                &&& view.resize_effects(size)[0] == ViewEffect::SetLayerDrawableSize(size)
            },
        size != view.drawable_size && view.delegate is Some ==> {
            &&& view.resized(size).delegate is Some
            &&& view.resized(size).delegate->0.viewport_size@ == (size.width, size.height)
        },
{
    let effects = view.resize_effects(size);
    if size == view.drawable_size {
        assert(resize_notifications(effects) == 0);
    } else if view.delegate is Some {
        crate::vector_types::lemma_new_has_its_lanes(size.width, size.height);
        let layer = ViewEffect::SetLayerDrawableSize(size);
        assert(effects.drop_last() =~= seq![layer]);
        assert(effects.drop_last().drop_last() =~= Seq::<ViewEffect>::empty());
        assert(resize_notifications(effects.drop_last().drop_last()) == 0);
        assert(resize_notifications(effects.drop_last()) == 0);
        assert(resize_notifications(effects) == 1);
    } else {
        assert(effects.drop_last() =~= Seq::<ViewEffect>::empty());
        assert(resize_notifications(effects.drop_last()) == 0);
        assert(resize_notifications(effects) == 0);
    }
}

/// The references held after `first + second` are those held after `second`,
/// starting from those held after `first`.
pub proof fn lemma_live_after_concat(
    live: Multiset<ObjectId>,
    first: Seq<ViewEffect>,
    second: Seq<ViewEffect>,
)
    ensures
        live_after(live, first + second) == live_after(live_after(live, first), second),
    decreases second.len(),
{
    if second.len() == 0 {
        assert(first + second =~= first);
    } else {
        lemma_live_after_concat(live, first, second.drop_last());
        assert((first + second).drop_last() =~= first + second.drop_last());
        assert((first + second).last() == second.last());
    }
}

/// Replacing a held object swaps one reference for another: the reference to
/// `current` goes and one to `new` comes, nil counting for nothing.
pub proof fn lemma_replace_swaps_reference(
    live: Multiset<ObjectId>,
    current: ObjectId,
    new: ObjectId,
)
    ensures
        live_after(live, replace_effects(current, new)) == live.sub(reference_to(current)).add(
            reference_to(new),
        ),
{
    broadcast use vstd::multiset::group_multiset_axioms;

    reveal_with_fuel(live_after, 3);
    let effects = replace_effects(current, new);
    let empty = Seq::<ViewEffect>::empty();
    let after = live.sub(reference_to(current)).add(reference_to(new));
    if current.is_nil() && new.is_nil() {
        assert(effects =~= empty);
        assert(live_after(live, effects) =~= after);
    } else if current.is_nil() {
        assert(effects =~= seq![ViewEffect::Retain(new)]);
        assert(effects.drop_last() =~= empty);
        assert(live_after(live, effects) =~= after);
    } else if new.is_nil() {
        assert(effects =~= seq![ViewEffect::Release(current)]);
        assert(effects.drop_last() =~= empty);
        assert(live_after(live, effects) =~= after);
    } else {
        assert(effects =~= seq![ViewEffect::Release(current), ViewEffect::Retain(new)]);
        assert(effects.drop_last() =~= seq![ViewEffect::Release(current)]);
        assert(effects.drop_last().drop_last() =~= empty);
        assert(live_after(live, effects.drop_last()) =~= live.remove(current));
        assert(live_after(live, effects) =~= after);
    }
}

/// One frame keeps the account: the references alive after the effects of a
/// frame are exactly the one to the frame's descriptor and the one to the
/// frame's drawable, where the view held what was alive before.
pub proof fn lemma_frame_holds_one_pair(view: MetalViewModel, frame: Frame)
    ensures
        live_after(view.held(), view.frame_effects(frame)) == view.after_frame(frame).held(),
        view.after_frame(frame).held() == reference_to(frame.descriptor).add(
            reference_to(frame.drawable),
        ),
{
    broadcast use vstd::multiset::group_multiset_axioms;

    let resize = view.resize_effects(frame.backing_size);
    let sized = view.resized(frame.backing_size);
    let descriptor_effects = replace_effects(
        view.current_render_pass_descriptor,
        frame.descriptor,
    );
    let drawable_effects = replace_effects(view.current_drawable, frame.drawable);
    let attachment = attachment_effects(frame.descriptor, frame.drawable, view.clear_color);
    let held = view.held();

    lemma_other_effects_keep_references(held, resize);
    let after_descriptor = held.sub(reference_to(view.current_render_pass_descriptor)).add(
        reference_to(frame.descriptor),
    );
    let after_drawable = after_descriptor.sub(reference_to(view.current_drawable)).add(
        reference_to(frame.drawable),
    );
    lemma_replace_swaps_reference(held, view.current_render_pass_descriptor, frame.descriptor);
    lemma_replace_swaps_reference(after_descriptor, view.current_drawable, frame.drawable);
    assert(after_drawable =~= view.after_frame(frame).held());

    assert(view.frame_effects(frame) =~= ((resize + descriptor_effects) + drawable_effects)
        + attachment);
    lemma_live_after_concat(held, resize + descriptor_effects + drawable_effects, attachment);
    lemma_live_after_concat(held, resize + descriptor_effects, drawable_effects);
    lemma_live_after_concat(held, resize, descriptor_effects);
    lemma_other_effects_keep_references(after_drawable, attachment);
}

/// Effects that neither retain nor release leave the references as they
/// are.
pub proof fn lemma_other_effects_keep_references(
    live: Multiset<ObjectId>,
    effects: Seq<ViewEffect>,
)
    requires
        forall|i: int|
            0 <= i < effects.len() ==> !(#[trigger] effects[i] is Retain) && !(effects[i]
                is Release),
    ensures
        live_after(live, effects) == live,
    decreases effects.len(),
{
    if effects.len() > 0 {
        lemma_other_effects_keep_references(live, effects.drop_last());
    }
}

/// No accumulation: after any number of frames the references alive are the
/// ones the view holds, and the view holds at most one descriptor and one
/// drawable: those of the last frame. Where the last frame had both, exactly
/// two references are alive.
pub proof fn lemma_frames_hold_one_pair(view: MetalViewModel, frames: Seq<Frame>)
    ensures
        live_after(view.held(), view.frames_effects(frames)) == view.after_frames(frames).held(),
        view.after_frames(frames).held().len() <= 2,
        frames.len() > 0 ==> view.after_frames(frames).held() == reference_to(
            frames.last().descriptor,
        ).add(reference_to(frames.last().drawable)),
        frames.len() > 0 && !frames.last().descriptor.is_nil() && !frames.last().drawable.is_nil()
            ==> view.after_frames(frames).held().len() == 2,
    decreases frames.len(),
{
    broadcast use vstd::multiset::group_multiset_axioms;

    if frames.len() > 0 {
        let before = view.after_frames(frames.drop_last());
        lemma_frames_hold_one_pair(view, frames.drop_last());
        lemma_frame_holds_one_pair(before, frames.last());
        lemma_live_after_concat(
            view.held(),
            view.frames_effects(frames.drop_last()),
            before.frame_effects(frames.last()),
        );
    }
}

} // verus!
