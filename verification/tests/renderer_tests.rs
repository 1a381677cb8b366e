use metal_frame::metal_view::DrawableSize;
use metal_frame::metal_view::MetalViewDelegate;
use metal_frame::object::ObjectId;
use metal_frame::renderer::GpuCommand;
use metal_frame::renderer::PrimitiveType;
use metal_frame::renderer::Renderer;
use metal_frame::renderer::RendererInitError;
use metal_frame::renderer::VertexBytes;
use metal_frame::renderer::Viewport;
use metal_frame::vector_types::vector_uint2;

const LIBRARY: ObjectId = ObjectId(0x1000);
const PIPELINE_DESCRIPTOR: ObjectId = ObjectId(0x2000);
const PIPELINE_STATE: ObjectId = ObjectId(0x3000);
const COMMAND_QUEUE: ObjectId = ObjectId(0x4000);
const PASS_DESCRIPTOR: ObjectId = ObjectId(0x5000);
const DRAWABLE: ObjectId = ObjectId(0x6000);
const NIL: ObjectId = ObjectId(0);

fn new_renderer() -> Renderer {
    Renderer::new_with_metal_kit_view(LIBRARY, PIPELINE_DESCRIPTOR, PIPELINE_STATE, COMMAND_QUEUE)
        .expect("all four objects are there")
}

fn renderer_300_by_200() -> Renderer {
    let mut renderer = new_renderer();
    renderer.metal_view_drawable_size_will_change(DrawableSize { width: 300, height: 200 });
    renderer
}

fn encoding(width: u32, height: u32, descriptor: ObjectId) -> Vec<GpuCommand> {
    vec![
        GpuCommand::CommandBuffer { queue: COMMAND_QUEUE },
        GpuCommand::LabelCommandBuffer,
        GpuCommand::RenderCommandEncoder { descriptor },
        GpuCommand::LabelRenderEncoder,
        GpuCommand::SetViewport(Viewport {
            origin_x: 0,
            origin_y: 0,
            width,
            height,
            z_near: 0,
            z_far: 1,
        }),
        GpuCommand::SetRenderPipelineState(PIPELINE_STATE),
        GpuCommand::SetVertexBytes { bytes: VertexBytes::TriangleVertices, length: 96, index: 0 },
        GpuCommand::SetVertexBytes {
            bytes: VertexBytes::ViewportSize(vector_uint2::new(width, height)),
            length: 8,
            index: 1,
        },
        GpuCommand::DrawPrimitives {
            primitive: PrimitiveType::Triangle,
            vertex_start: 0,
            vertex_count: 3,
        },
        GpuCommand::EndEncoding,
    ]
}

#[test]
fn new_renderer_keeps_pipeline_state_and_queue() {
    let renderer = new_renderer();
    assert_eq!(renderer.pipeline_state(), PIPELINE_STATE);
    assert_eq!(renderer.command_queue(), COMMAND_QUEUE);
}

#[test]
fn renderer_keeps_pipeline_state_and_queue_alive() {
    let mut renderer = new_renderer();
    assert_eq!(renderer.retained_objects(), vec![PIPELINE_STATE, COMMAND_QUEUE]);
    renderer.metal_view_drawable_size_will_change(DrawableSize { width: 5, height: 6 });
    assert_eq!(renderer.retained_objects(), vec![PIPELINE_STATE, COMMAND_QUEUE]);
}

#[test]
fn new_renderer_has_an_empty_viewport() {
    let renderer = new_renderer();
    assert_eq!(renderer.viewport_size(), vector_uint2::new(0, 0));
}

#[test]
fn creation_fails_without_shader_library() {
    let created =
        Renderer::new_with_metal_kit_view(NIL, PIPELINE_DESCRIPTOR, PIPELINE_STATE, COMMAND_QUEUE);
    assert_eq!(created.err(), Some(RendererInitError::FailedToInit));
}

#[test]
fn creation_fails_without_pipeline_descriptor() {
    let created = Renderer::new_with_metal_kit_view(LIBRARY, NIL, PIPELINE_STATE, COMMAND_QUEUE);
    assert_eq!(created.err(), Some(RendererInitError::FailedToInit));
}

#[test]
fn creation_reports_failed_init_before_pipeline_state() {
    let created = Renderer::new_with_metal_kit_view(NIL, NIL, NIL, NIL);
    assert_eq!(created.err(), Some(RendererInitError::FailedToInit));
}

#[test]
fn creation_fails_without_pipeline_state() {
    let created =
        Renderer::new_with_metal_kit_view(LIBRARY, PIPELINE_DESCRIPTOR, NIL, COMMAND_QUEUE);
    assert_eq!(created.err(), Some(RendererInitError::UnableToSetPipelineState));
}

#[test]
fn renderer_errors_have_their_texts() {
    assert_eq!(RendererInitError::FailedToInit.to_string(), "Failed to initialize");
    assert_eq!(
        RendererInitError::UnableToSetPipelineState.to_string(),
        "Unable to set pipeline state"
    );
}

#[test]
fn resize_stores_the_viewport_and_nothing_else() {
    let mut renderer = new_renderer();
    renderer.metal_view_drawable_size_will_change(DrawableSize { width: 1920, height: 1080 });
    assert_eq!(renderer.viewport_size().x(), 1920);
    assert_eq!(renderer.viewport_size().y(), 1080);
    assert_eq!(renderer.pipeline_state(), PIPELINE_STATE);
    assert_eq!(renderer.command_queue(), COMMAND_QUEUE);
}

#[test]
fn last_resize_wins() {
    let mut renderer = new_renderer();
    renderer.metal_view_drawable_size_will_change(DrawableSize { width: 1, height: 2 });
    renderer.metal_view_drawable_size_will_change(DrawableSize { width: u32::MAX, height: 0 });
    assert_eq!(renderer.viewport_size(), vector_uint2::new(u32::MAX, 0));
}

#[test]
fn draw_without_descriptor_sends_nothing() {
    let renderer = renderer_300_by_200();
    assert_eq!(renderer.draw_in_metal_view(NIL, DRAWABLE), vec![]);
    assert_eq!(renderer.draw_in_metal_view(NIL, NIL), vec![]);
}

#[test]
fn draw_300_by_200_is_one_buffer_one_draw_one_present_one_commit() {
    let renderer = renderer_300_by_200();
    let commands = renderer.draw_in_metal_view(PASS_DESCRIPTOR, DRAWABLE);

    let mut expected = encoding(300, 200, PASS_DESCRIPTOR);
    expected.push(GpuCommand::PresentDrawable(DRAWABLE));
    expected.push(GpuCommand::Commit);
    assert_eq!(commands, expected);

    let position = |wanted: fn(&GpuCommand) -> bool| -> Vec<usize> {
        commands.iter().enumerate().filter(|(_, c)| wanted(c)).map(|(i, _)| i).collect()
    };
    let buffers = position(|c| matches!(c, GpuCommand::CommandBuffer { .. }));
    let draws = position(|c| matches!(c, GpuCommand::DrawPrimitives { .. }));
    let presents = position(|c| matches!(c, GpuCommand::PresentDrawable(_)));
    let commits = position(|c| matches!(c, GpuCommand::Commit));
    assert_eq!(buffers.len(), 1);
    assert_eq!(draws.len(), 1);
    assert_eq!(presents.len(), 1);
    assert_eq!(commits.len(), 1);
    assert!(buffers[0] < draws[0] && draws[0] < presents[0] && presents[0] < commits[0]);
    assert_eq!(
        commands[draws[0]],
        GpuCommand::DrawPrimitives {
            primitive: PrimitiveType::Triangle,
            vertex_start: 0,
            vertex_count: 3
        }
    );
    assert_eq!(commits[0], commands.len() - 1);
}

#[test]
fn draw_without_drawable_skips_presentation_and_still_commits() {
    let renderer = renderer_300_by_200();
    let commands = renderer.draw_in_metal_view(PASS_DESCRIPTOR, NIL);
    let mut expected = encoding(300, 200, PASS_DESCRIPTOR);
    expected.push(GpuCommand::Commit);
    assert_eq!(commands, expected);
    assert!(!commands.iter().any(|c| matches!(c, GpuCommand::PresentDrawable(_))));
}

#[test]
fn draw_uses_the_cached_viewport() {
    let mut renderer = new_renderer();
    renderer.metal_view_drawable_size_will_change(DrawableSize { width: 640, height: 480 });
    let commands = renderer.draw_in_metal_view(PASS_DESCRIPTOR, DRAWABLE);
    assert_eq!(
        commands[4],
        GpuCommand::SetViewport(Viewport {
            origin_x: 0,
            origin_y: 0,
            width: 640,
            height: 480,
            z_near: 0,
            z_far: 1
        })
    );
    assert_eq!(
        commands[7],
        GpuCommand::SetVertexBytes {
            bytes: VertexBytes::ViewportSize(vector_uint2::new(640, 480)),
            length: 8,
            index: 1
        }
    );
}

#[test]
fn vertices_bind_at_zero_and_viewport_size_at_one() {
    let renderer = renderer_300_by_200();
    let commands = renderer.draw_in_metal_view(PASS_DESCRIPTOR, DRAWABLE);
    let bindings: Vec<(u32, usize)> = commands
        .iter()
        .filter_map(|c| match c {
            GpuCommand::SetVertexBytes { index, length, .. } => Some((*index, *length)),
            _ => None,
        })
        .collect();
    assert_eq!(bindings, vec![(0, 96), (1, 8)]);
}

#[test]
fn each_draw_takes_a_new_command_buffer() {
    let renderer = renderer_300_by_200();
    let first = renderer.draw_in_metal_view(PASS_DESCRIPTOR, DRAWABLE);
    let second = renderer.draw_in_metal_view(ObjectId(0x5100), ObjectId(0x6100));
    assert_eq!(first[0], GpuCommand::CommandBuffer { queue: COMMAND_QUEUE });
    assert_eq!(second[0], GpuCommand::CommandBuffer { queue: COMMAND_QUEUE });
    assert_eq!(second[2], GpuCommand::RenderCommandEncoder { descriptor: ObjectId(0x5100) });
    assert_eq!(second[10], GpuCommand::PresentDrawable(ObjectId(0x6100)));
}

#[test]
fn draw_before_any_resize_uses_the_empty_viewport() {
    let renderer = new_renderer();
    let commands = renderer.draw_in_metal_view(PASS_DESCRIPTOR, DRAWABLE);
    let mut expected = encoding(0, 0, PASS_DESCRIPTOR);
    expected.push(GpuCommand::PresentDrawable(DRAWABLE));
    expected.push(GpuCommand::Commit);
    assert_eq!(commands, expected);
}

#[test]
fn primitive_types_have_their_numbers() {
    assert_eq!(PrimitiveType::Point.code(), 0);
    assert_eq!(PrimitiveType::Line.code(), 1);
    assert_eq!(PrimitiveType::LineStrip.code(), 2);
    assert_eq!(PrimitiveType::Triangle.code(), 3);
    assert_eq!(PrimitiveType::TriangleStrip.code(), 4);
}

#[test]
fn nil_is_nil_and_nothing_else_is() {
    assert!(ObjectId::nil().is_nil());
    assert_eq!(ObjectId::nil(), NIL);
    assert!(!DRAWABLE.is_nil());
    assert!(!ObjectId(usize::MAX).is_nil());
}
