//! Renderer that draws one triangle into the view, one command buffer per
//! frame.
//!
//! The renderer never talks to the GPU itself. `draw_in_metal_view` returns
//! the commands of one frame in the order in which they are issued.

use crate::metal_view::DrawableSize;
use crate::metal_view::MetalViewDelegate;
use crate::object::ObjectId;
use crate::vector_types::vector_uint2;
use vstd::prelude::*;

verus! {

/// Binding index of the triangle's vertices in the vertex shader.
pub const VERTEX_INPUT_INDEX_VERTICES: u32 = 0;

/// Binding index of the viewport size in the vertex shader.
pub const VERTEX_INPUT_INDEX_VIEWPORT_SIZE: u32 = 1;

/// Bytes of the triangle's three vertices: each is a position and a colour of
/// four 32-bit lanes apiece.
pub const TRIANGLE_VERTICES_LENGTH: usize = 96;

/// Bytes of the viewport size: two 32-bit lanes.
pub const VIEWPORT_SIZE_LENGTH: usize = 8;

/// Vertices in the triangle.
pub const TRIANGLE_VERTEX_COUNT: usize = 3;

/// Why a renderer could not be created.
#[derive(Clone, Copy, PartialEq, Eq, Structural, Debug)]
pub enum RendererInitError {
    FailedToInit,
    UnableToSetPipelineState,
}

impl RendererInitError {
    /// The text of the error.
    pub open spec fn message(self) -> Seq<char> {
        match self {
            RendererInitError::FailedToInit => "Failed to initialize"@,
            RendererInitError::UnableToSetPipelineState => "Unable to set pipeline state"@,
        }
    }

    /// The text of the error.
    pub fn to_string(&self) -> (text: String)
        ensures
            text@ == self.message(),
    {
        match self {
            RendererInitError::FailedToInit => "Failed to initialize".to_owned(),
            RendererInitError::UnableToSetPipelineState => "Unable to set pipeline state".to_owned(),
        }
    }
}

/// The rectangle of the drawable that is rendered to, and its depth range.
#[derive(Clone, Copy, PartialEq, Eq, Structural, Debug)]
pub struct Viewport {
    pub origin_x: u32,
    pub origin_y: u32,
    pub width: u32,
    pub height: u32,
    pub z_near: u32,
    pub z_far: u32,
}

/// How the vertices of a draw call are assembled.
#[derive(Clone, Copy, PartialEq, Eq, Structural, Debug)]
pub enum PrimitiveType {
    Point,
    Line,
    LineStrip,
    Triangle,
    TriangleStrip,
}

impl PrimitiveType {
    /// The number of the primitive type in the GPU API.
    pub open spec fn spec_code(self) -> u64 {
        match self {
            PrimitiveType::Point => 0,
            PrimitiveType::Line => 1,
            PrimitiveType::LineStrip => 2,
            PrimitiveType::Triangle => 3,
            PrimitiveType::TriangleStrip => 4,
        }
    }

    /// The number of the primitive type in the GPU API.
    #[verifier::when_used_as_spec(spec_code)]
    pub fn code(self) -> (code: u64)
        ensures
            code == self.code(),
    {
        match self {
            PrimitiveType::Point => 0,
            PrimitiveType::Line => 1,
            PrimitiveType::LineStrip => 2,
            PrimitiveType::Triangle => 3,
            PrimitiveType::TriangleStrip => 4,
        }
    }
}

/// What a `SetVertexBytes` command uploads.
#[derive(Clone, Copy, PartialEq, Eq, Structural, Debug)]
pub enum VertexBytes {
    /// The fixed triangle: three vertices, each a 2D position and an RGBA
    /// colour.
    TriangleVertices,
    /// The size of the viewport.
    ViewportSize(vector_uint2),
}

/// One call into the GPU API.
#[derive(Clone, Copy, PartialEq, Eq, Structural, Debug)]
pub enum GpuCommand {
    /// Take a new command buffer from `queue`.
    CommandBuffer { queue: ObjectId },
    /// Label the command buffer.
    LabelCommandBuffer,
    /// Open a render pass on the command buffer with `descriptor`.
    RenderCommandEncoder { descriptor: ObjectId },
    /// Label the render encoder.
    LabelRenderEncoder,
    /// Set the viewport of the pass.
    SetViewport(Viewport),
    /// Bind the pipeline state.
    SetRenderPipelineState(ObjectId),
    /// Upload `length` bytes as an inline buffer at binding `index`.
    SetVertexBytes { bytes: VertexBytes, length: usize, index: u32 },
    /// Draw one instance of `vertex_count` vertices, from `vertex_start` on.
    DrawPrimitives { primitive: PrimitiveType, vertex_start: usize, vertex_count: usize },
    /// Close the render pass.
    EndEncoding,
    /// Schedule the drawable for presentation.
    PresentDrawable(ObjectId),
    /// Submit the command buffer. The GPU runs it later.
    Commit,
}

/// What a renderer is: the pipeline state and the command queue it was
/// created with, and the size of the viewport.
pub struct RendererModel {
    pub pipeline_state: ObjectId,
    pub command_queue: ObjectId,
    pub viewport_size: vector_uint2,
}

/// The error with which creation ends, if any: `FailedToInit` without a
/// shader library or a pipeline descriptor, `UnableToSetPipelineState` with
/// both and without a pipeline state.
pub open spec fn init_error(library: ObjectId, descriptor: ObjectId, pipeline_state: ObjectId)
    -> Option<RendererInitError> {
    if library.is_nil() || descriptor.is_nil() {
        Some(RendererInitError::FailedToInit)
    } else if pipeline_state.is_nil() {
        Some(RendererInitError::UnableToSetPipelineState)
    } else {
        None
    }
}

/// The viewport of a drawable of `size`: all of it, depth from 0 to 1.
pub open spec fn full_viewport(size: vector_uint2) -> Viewport {
    Viewport { origin_x: 0, origin_y: 0, width: size@.0, height: size@.1, z_near: 0, z_far: 1 }
}

/// The commands that encode the triangle, from the new command buffer to the
/// end of the render pass.
pub open spec fn encode_commands(renderer: RendererModel, descriptor: ObjectId) -> Seq<
    GpuCommand,
> {
    seq![
        GpuCommand::CommandBuffer { queue: renderer.command_queue },
        GpuCommand::LabelCommandBuffer,
        GpuCommand::RenderCommandEncoder { descriptor },
        GpuCommand::LabelRenderEncoder,
        GpuCommand::SetViewport(full_viewport(renderer.viewport_size)),
        GpuCommand::SetRenderPipelineState(renderer.pipeline_state),
        GpuCommand::SetVertexBytes {
            bytes: VertexBytes::TriangleVertices,
            length: TRIANGLE_VERTICES_LENGTH,
            index: VERTEX_INPUT_INDEX_VERTICES,
        },
        GpuCommand::SetVertexBytes {
            bytes: VertexBytes::ViewportSize(renderer.viewport_size),
            length: VIEWPORT_SIZE_LENGTH,
            index: VERTEX_INPUT_INDEX_VIEWPORT_SIZE,
        },
        GpuCommand::DrawPrimitives {
            primitive: PrimitiveType::Triangle,
            vertex_start: 0,
            vertex_count: TRIANGLE_VERTEX_COUNT,
        },
        GpuCommand::EndEncoding,
    ]
}

/// The commands of one frame. Without a render-pass descriptor there is
/// nothing to draw into and the frame is skipped: no command at all. With
/// one, the triangle is encoded, the drawable is presented if there is one,
/// and the command buffer is committed.
pub open spec fn frame_commands(
    renderer: RendererModel,
    descriptor: ObjectId,
    drawable: ObjectId,
) -> Seq<GpuCommand> {
    if descriptor.is_nil() {
        Seq::empty()
    } else if drawable.is_nil() {
        encode_commands(renderer, descriptor).push(GpuCommand::Commit)
    } else {
        encode_commands(renderer, descriptor).push(GpuCommand::PresentDrawable(drawable)).push(
            GpuCommand::Commit,
        )
    }
}

/// Renderer of one view.
#[derive(Clone, Copy, Debug)]
pub struct Renderer {
    pipeline_state: ObjectId,
    command_queue: ObjectId,
    viewport_size: vector_uint2,
}

impl View for Renderer {
    type V = RendererModel;

    closed spec fn view(&self) -> RendererModel {
        RendererModel {
            pipeline_state: self.pipeline_state,
            command_queue: self.command_queue,
            viewport_size: self.viewport_size,
        }
    }
}

impl Renderer {
    /// Creates the renderer of a view from the objects that the device made
    /// for it: the default shader `library`, the pipeline `descriptor`
    /// configured with the two shader functions and the view's pixel format,
    /// the `pipeline_state` built from that descriptor, and the
    /// `command_queue`. An object that could not be made is nil.
    ///
    /// Fails with `FailedToInit` where the library or the descriptor is
    /// missing, and with `UnableToSetPipelineState` where both are there and
    /// the pipeline state is missing. The new renderer keeps the pipeline
    /// state and the command queue for good; its viewport is empty until the
    /// view reports a size.
    pub fn new_with_metal_kit_view(
        library: ObjectId,
        descriptor: ObjectId,
        pipeline_state: ObjectId,
        command_queue: ObjectId,
    ) -> (created: Result<Renderer, RendererInitError>)
        ensures
            match created {
                Ok(renderer) => init_error(library, descriptor, pipeline_state) is None
                    && renderer@ == (RendererModel {
                    pipeline_state,
                    command_queue,
                    viewport_size: vector_uint2::new(0, 0),
                }),
                Err(error) => init_error(library, descriptor, pipeline_state) == Some(error),
            },
    {
        if library.is_nil() || descriptor.is_nil() {
            return Err(RendererInitError::FailedToInit);
        }
        if pipeline_state.is_nil() {
            return Err(RendererInitError::UnableToSetPipelineState);
        }
        Ok(Renderer { pipeline_state, command_queue, viewport_size: vector_uint2::new(0, 0) })
    }

    /// The objects that the renderer keeps alive from its creation on, for
    /// as long as it lives: the pipeline state, then the command queue.
    pub fn retained_objects(&self) -> (objects: Vec<ObjectId>)
        ensures
            objects@ == seq![self@.pipeline_state, self@.command_queue],
    {
        let mut objects: Vec<ObjectId> = Vec::new();
        objects.push(self.pipeline_state);
        objects.push(self.command_queue);
        objects
    }

    /// The size of the viewport, as it is uploaded to the vertex shader.
    pub fn viewport_size(&self) -> (size: vector_uint2)
        ensures
            size == self@.viewport_size,
    {
        self.viewport_size
    }

    /// The pipeline state.
    pub fn pipeline_state(&self) -> (state: ObjectId)
        ensures
            state == self@.pipeline_state,
    {
        self.pipeline_state
    }

    /// The command queue.
    pub fn command_queue(&self) -> (queue: ObjectId)
        ensures
            queue == self@.command_queue,
    {
        self.command_queue
    }
}

impl MetalViewDelegate for Renderer {
    /// Takes `size` as the size of the viewport. Nothing else changes and
    /// nothing is sent to the GPU.
    fn metal_view_drawable_size_will_change(&mut self, size: DrawableSize)
        ensures
            final(self)@ == (RendererModel {
                viewport_size: vector_uint2::new(size.width, size.height),
                ..old(self)@
            }),
    {
        let new_viewport_size = vector_uint2::new(size.width, size.height);
        self.viewport_size = new_viewport_size;
    }

    /// The commands that draw one frame into `render_pass_descriptor` and
    /// present `current_drawable`; none where there is no descriptor.
    fn draw_in_metal_view(&self, render_pass_descriptor: ObjectId, current_drawable: ObjectId) -> (commands:
        Vec<GpuCommand>)
        ensures
            commands@ == frame_commands(self@, render_pass_descriptor, current_drawable),
    {
        let mut commands: Vec<GpuCommand> = Vec::new();
        if render_pass_descriptor.is_nil() {
            return commands;
        }
        let viewport_size = self.viewport_size;
        commands.push(GpuCommand::CommandBuffer { queue: self.command_queue });
        commands.push(GpuCommand::LabelCommandBuffer);
        commands.push(GpuCommand::RenderCommandEncoder { descriptor: render_pass_descriptor });
        commands.push(GpuCommand::LabelRenderEncoder);
        commands.push(
            GpuCommand::SetViewport(
                Viewport {
                    origin_x: 0,
                    origin_y: 0,
                    width: viewport_size.x(),
                    height: viewport_size.y(),
                    z_near: 0,
                    z_far: 1,
                },
            ),
        );
        commands.push(GpuCommand::SetRenderPipelineState(self.pipeline_state));
        commands.push(
            GpuCommand::SetVertexBytes {
                bytes: VertexBytes::TriangleVertices,
                length: TRIANGLE_VERTICES_LENGTH,
                index: VERTEX_INPUT_INDEX_VERTICES,
            },
        );
        commands.push(
            GpuCommand::SetVertexBytes {
                bytes: VertexBytes::ViewportSize(viewport_size),
                length: VIEWPORT_SIZE_LENGTH,
                index: VERTEX_INPUT_INDEX_VIEWPORT_SIZE,
            },
        );
        commands.push(
            GpuCommand::DrawPrimitives {
                primitive: PrimitiveType::Triangle,
                vertex_start: 0,
                vertex_count: TRIANGLE_VERTEX_COUNT,
            },
        );
        commands.push(GpuCommand::EndEncoding);
        if !current_drawable.is_nil() {
            commands.push(GpuCommand::PresentDrawable(current_drawable));
        }
        commands.push(GpuCommand::Commit);
        commands
    }
}

/// A frame without a render-pass descriptor is skipped: nothing at all is
/// sent to the GPU, whatever the drawable.
pub proof fn lemma_no_descriptor_no_commands(
    renderer: RendererModel,
    descriptor: ObjectId,
    drawable: ObjectId,
)
    requires
        descriptor.is_nil(),
    ensures
        frame_commands(renderer, descriptor, drawable).len() == 0,
{
}

/// A frame with a render-pass descriptor is one submission. Its commands
/// begin with the one new command buffer, taken from the renderer's queue,
/// and end with the one commit. In between, in this order: the render pass on
/// the descriptor; the viewport, all of the cached size; the pipeline state;
/// the triangle's vertices at binding 0 and the viewport size at binding 1;
/// the one draw call, of a triangle of three vertices; the end of the pass;
/// and the one presentation of the drawable, which is left out exactly where
/// there is no drawable.
pub proof fn lemma_frame_is_one_submission(
    renderer: RendererModel,
    descriptor: ObjectId,
    drawable: ObjectId,
)
    requires
        !descriptor.is_nil(),
    ensures
        ({
            let commands = frame_commands(renderer, descriptor, drawable);
            let last = commands.len() - 1;
            &&& commands.len() == (if drawable.is_nil() {
                11nat
            } else {
                12nat
            })
            &&& commands[0] == (GpuCommand::CommandBuffer { queue: renderer.command_queue })
            &&& commands[2] == (GpuCommand::RenderCommandEncoder { descriptor })
            &&& commands[4] == GpuCommand::SetViewport(
                Viewport {
                    origin_x: 0,
                    origin_y: 0,
                    width: renderer.viewport_size@.0,
                    height: renderer.viewport_size@.1,
                    z_near: 0,
                    z_far: 1,
                },
            )
            &&& commands[5] == GpuCommand::SetRenderPipelineState(renderer.pipeline_state)
            &&& commands[6] == (GpuCommand::SetVertexBytes {
                bytes: VertexBytes::TriangleVertices,
                length: 96,
                index: 0,
            })
            &&& commands[7] == (GpuCommand::SetVertexBytes {
                bytes: VertexBytes::ViewportSize(renderer.viewport_size),
                length: 8,
                index: 1,
            })
            &&& commands[8] == (GpuCommand::DrawPrimitives {
                primitive: PrimitiveType::Triangle,
                vertex_start: 0,
                vertex_count: 3,
            })
            &&& commands[9] is EndEncoding
            &&& !drawable.is_nil() ==> commands[10] == GpuCommand::PresentDrawable(drawable)
            &&& commands[last] is Commit
            &&& forall|i: int|
                0 <= i < commands.len() && (#[trigger] commands[i]) is CommandBuffer ==> i == 0
            &&& forall|i: int|
                0 <= i < commands.len() && (#[trigger] commands[i]) is DrawPrimitives ==> i == 8
            &&& forall|i: int|
                0 <= i < commands.len() && (#[trigger] commands[i]) is PresentDrawable ==> i == 10
                    && !drawable.is_nil()
            &&& forall|i: int|
                0 <= i < commands.len() && (#[trigger] commands[i]) is Commit ==> i == last
        }),
{
}

} // verus!
