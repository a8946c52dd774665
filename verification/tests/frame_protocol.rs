use render_host::bridge::{apply_event, HostDirective, HostEvent};
use render_host::engine::{
    AcquireOutcome, EnginePhase, FrameAction, FrameEngine, RenderCommand,
};
use render_host::layout::position_texcoord_layout;
use render_host::mesh::upload_mesh;
use render_host::pipeline::{build_pipeline, PipelineRegistry};
use render_host::surface::{SurfaceConfig, SurfaceFormat};
use render_host::texture::{upload_texture, TexturePlan};

fn config() -> SurfaceConfig {
    SurfaceConfig {
        format: SurfaceFormat { id: 11, srgb: true },
        width: 800,
        height: 600,
        present_mode: 3,
        alpha_mode: 5,
    }
}

fn textured_engine() -> FrameEngine {
    let layout = position_texcoord_layout();
    let fmt = SurfaceFormat { id: 11, srgb: true };
    let registry = PipelineRegistry::new(vec![
        build_pipeline(0, layout.clone(), fmt),
        build_pipeline(1, layout.clone(), fmt),
    ])
    .unwrap();
    let mesh = upload_mesh(
        layout,
        vec![0u8; 100],
        Some(vec![0u16, 1, 4, 1, 2, 4, 2, 3, 4]),
    )
    .unwrap();
    let texture: TexturePlan = upload_texture(vec![9u8; 16], 2, 2).unwrap();
    FrameEngine::new(config(), registry, mesh, Some(texture))
}

#[test]
fn new_engine_is_ready_with_default_background() {
    let e = textured_engine();
    assert_eq!(e.phase, EnginePhase::Ready);
    assert_eq!(e.frames_presented, 0);
    assert_eq!(e.background.red.num as f64 / e.background.red.den as f64, 0.1);
    assert_eq!(e.background.green.num as f64 / e.background.green.den as f64, 0.2);
    assert_eq!(e.background.blue.num as f64 / e.background.blue.den as f64, 0.3);
    assert_eq!(e.background.alpha.num as f64 / e.background.alpha.den as f64, 1.0);
}

#[test]
fn successful_frame_presents_exactly_one() {
    let mut e = textured_engine();
    let action = e.begin_frame(AcquireOutcome::Acquired);
    assert_eq!(action, FrameAction::RecordAndPresent);
    assert_eq!(e.phase, EnginePhase::Rendering);
    let _cmds = e.record_commands();
    e.finish_frame();
    assert_eq!(e.phase, EnginePhase::Ready);
    assert_eq!(e.frames_presented, 1);
}

#[test]
fn recorded_commands_cover_the_whole_indexed_textured_mesh() {
    let mut e = textured_engine();
    e.begin_frame(AcquireOutcome::Acquired);
    let cmds = e.record_commands();
    assert_eq!(
        cmds,
        vec![
            RenderCommand::BeginPass { clear: e.background },
            RenderCommand::SetPipeline { index: 0 },
            RenderCommand::SetBindGroup { group: 0 },
            RenderCommand::SetVertexBuffer { slot: 0 },
            RenderCommand::SetIndexBuffer,
            RenderCommand::DrawIndexed { index_count: 9 },
            RenderCommand::EndPass,
        ]
    );
}

#[test]
fn recorded_commands_without_texture_or_indices_draw_vertices() {
    let layout = position_texcoord_layout();
    let fmt = SurfaceFormat { id: 11, srgb: true };
    let registry = PipelineRegistry::new(vec![build_pipeline(0, layout.clone(), fmt)]).unwrap();
    let mesh = upload_mesh(layout, vec![0u8; 60], None).unwrap();
    let mut e = FrameEngine::new(config(), registry, mesh, None);
    e.begin_frame(AcquireOutcome::Acquired);
    let cmds = e.record_commands();
    assert_eq!(
        cmds,
        vec![
            RenderCommand::BeginPass { clear: e.background },
            RenderCommand::SetPipeline { index: 0 },
            RenderCommand::SetVertexBuffer { slot: 0 },
            RenderCommand::Draw { vertex_count: 3 },
            RenderCommand::EndPass,
        ]
    );
}

#[test]
fn lost_surface_reconfigures_and_recovers_without_presenting() {
    let mut e = textured_engine();
    e.begin_frame(AcquireOutcome::Acquired);
    e.record_commands();
    e.finish_frame();
    let frames_before = e.frames_presented;
    let config_before = e.config;

    let action = e.begin_frame(AcquireOutcome::Lost);
    assert_eq!(action, FrameAction::ReapplyConfig);
    assert_eq!(e.phase, EnginePhase::Reconfiguring);
    e.surface_reapplied();
    assert_eq!(e.phase, EnginePhase::Ready);
    assert_eq!(e.frames_presented, frames_before);
    assert_eq!(e.config, config_before);
}

#[test]
fn out_of_memory_terminates_the_session() {
    let mut e = textured_engine();
    let action = e.begin_frame(AcquireOutcome::OutOfMemory);
    assert_eq!(action, FrameAction::Stop);
    assert_eq!(e.phase, EnginePhase::Terminating);
    assert_eq!(e.frames_presented, 0);
}

#[test]
fn transient_failure_skips_the_frame_and_stays_ready() {
    let mut e = textured_engine();
    let action = e.begin_frame(AcquireOutcome::Transient);
    assert_eq!(action, FrameAction::SkipFrame);
    assert_eq!(e.phase, EnginePhase::Ready);
    assert_eq!(e.frames_presented, 0);
}

#[test]
fn pointer_move_sets_red_and_green_ratios_only() {
    let mut e = textured_engine();
    let blue_before = e.background.blue;
    let alpha_before = e.background.alpha;
    let d = apply_event(&mut e, HostEvent::PointerMoved { x: 400, y: 300 });
    assert_eq!(d, HostDirective::Continue);
    assert_eq!(e.background.red.num as f64 / e.background.red.den as f64, 0.5);
    assert_eq!(e.background.green.num as f64 / e.background.green.den as f64, 0.5);
    assert_eq!(e.background.blue, blue_before);
    assert_eq!(e.background.alpha, alpha_before);
}

#[test]
fn close_and_escape_exit_without_touching_the_engine() {
    let mut e = textured_engine();
    let active_before = e.registry.active;
    assert_eq!(apply_event(&mut e, HostEvent::CloseRequested), HostDirective::Exit);
    assert_eq!(apply_event(&mut e, HostEvent::EscapePressed), HostDirective::Exit);
    assert_eq!(e.registry.active, active_before);
    assert_eq!(e.phase, EnginePhase::Ready);
}

#[test]
fn two_pipelines_cycle_forward_and_back_around() {
    let mut e = textured_engine();
    assert_eq!(e.registry.active, 0);
    assert_eq!(
        apply_event(&mut e, HostEvent::NextPipelinePressed),
        HostDirective::Continue
    );
    assert_eq!(e.registry.active, 1);
    apply_event(&mut e, HostEvent::NextPipelinePressed);
    assert_eq!(e.registry.active, 0);
}

#[test]
fn resize_events_follow_the_resize_rule() {
    let mut e = textured_engine();
    let before = e.config;
    assert_eq!(
        apply_event(&mut e, HostEvent::Resized { width: 0, height: 300 }),
        HostDirective::Continue
    );
    assert_eq!(e.config, before);
    assert_eq!(
        apply_event(&mut e, HostEvent::Resized { width: 640, height: 480 }),
        HostDirective::ApplySurfaceConfig
    );
    assert_eq!(e.config.width, 640);
    assert_eq!(e.config.height, 480);
    assert_eq!(e.config.format, before.format);
}

#[test]
fn end_to_end_frame_loop_with_events() {
    let mut e = textured_engine();
    apply_event(&mut e, HostEvent::NextPipelinePressed);
    e.begin_frame(AcquireOutcome::Acquired);
    let cmds = e.record_commands();
    assert!(cmds.contains(&RenderCommand::SetPipeline { index: 1 }));
    e.finish_frame();
    apply_event(&mut e, HostEvent::PointerMoved { x: 200, y: 150 });
    e.begin_frame(AcquireOutcome::Acquired);
    let cmds = e.record_commands();
    assert_eq!(cmds[0], RenderCommand::BeginPass { clear: e.background });
    e.finish_frame();
    assert_eq!(e.frames_presented, 2);
}
