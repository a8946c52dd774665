use render_host::pipeline::{
    build_pipeline, cycle, BlendMode, CullMode, FrontFace, PipelineRegistry, PrimitiveTopology,
};
use render_host::layout::position_texcoord_layout;
use render_host::surface::{
    choose_surface_format, initial_config, reconfigure, SurfaceCaps, SurfaceConfig, SurfaceFormat,
};

fn caps() -> SurfaceCaps {
    SurfaceCaps {
        formats: vec![
            SurfaceFormat { id: 10, srgb: false },
            SurfaceFormat { id: 11, srgb: true },
            SurfaceFormat { id: 12, srgb: true },
        ],
        present_modes: vec![3, 4],
        alpha_modes: vec![5],
    }
}

#[test]
fn format_selection_prefers_first_srgb() {
    let f = choose_surface_format(&caps().formats);
    assert_eq!(f, SurfaceFormat { id: 11, srgb: true });
}

#[test]
fn format_selection_falls_back_to_first() {
    let formats = vec![
        SurfaceFormat { id: 20, srgb: false },
        SurfaceFormat { id: 21, srgb: false },
    ];
    let f = choose_surface_format(&formats);
    assert_eq!(f, SurfaceFormat { id: 20, srgb: false });
}

#[test]
fn initial_config_uses_caps_and_size() {
    let c = initial_config(&caps(), 800, 600).unwrap();
    assert_eq!(c.format, SurfaceFormat { id: 11, srgb: true });
    assert_eq!(c.width, 800);
    assert_eq!(c.height, 600);
    assert_eq!(c.present_mode, 3);
    assert_eq!(c.alpha_mode, 5);
}

#[test]
fn initial_config_rejects_empty_caps_or_degenerate_size() {
    let empty = SurfaceCaps { formats: vec![], present_modes: vec![3], alpha_modes: vec![5] };
    assert!(initial_config(&empty, 800, 600).is_none());
    assert!(initial_config(&caps(), 0, 600).is_none());
    assert!(initial_config(&caps(), 800, 0).is_none());
}

#[test]
fn reconfigure_ignores_zero_dimension() {
    let mut c = initial_config(&caps(), 800, 600).unwrap();
    let before = c;
    assert!(!reconfigure(&mut c, 0, 300));
    assert_eq!(c, before);
    assert!(!reconfigure(&mut c, 300, 0));
    assert_eq!(c, before);
}

#[test]
fn reconfigure_applies_positive_dimensions() {
    let mut c = initial_config(&caps(), 800, 600).unwrap();
    assert!(reconfigure(&mut c, 640, 480));
    assert_eq!(c.width, 640);
    assert_eq!(c.height, 480);
    assert_eq!(c.format, SurfaceFormat { id: 11, srgb: true });
    assert_eq!(c.present_mode, 3);
    assert_eq!(c.alpha_mode, 5);
}

#[test]
fn reconfigure_is_idempotent() {
    let mut once = initial_config(&caps(), 800, 600).unwrap();
    reconfigure(&mut once, 640, 480);
    let mut twice = once;
    reconfigure(&mut twice, 640, 480);
    assert_eq!(once, twice);
}

#[test]
fn cycle_stays_in_range_and_wraps() {
    assert_eq!(cycle(3, 0), 1);
    assert_eq!(cycle(3, 1), 2);
    assert_eq!(cycle(3, 2), 0);
    assert_eq!(cycle(1, 0), 0);
}

#[test]
fn cycling_registry_length_times_returns_to_start() {
    for len in 1..6usize {
        for start in 0..len {
            let mut i = start;
            for _ in 0..len {
                i = cycle(len, i);
                assert!(i < len);
            }
            assert_eq!(i, start);
        }
    }
}

#[test]
fn registry_rejects_empty_and_starts_at_zero() {
    assert!(PipelineRegistry::new(vec![]).is_none());
    let layout = position_texcoord_layout();
    let fmt = SurfaceFormat { id: 11, srgb: true };
    let p0 = build_pipeline(0, layout.clone(), fmt);
    let p1 = build_pipeline(1, layout, fmt);
    let reg = PipelineRegistry::new(vec![p0, p1]).unwrap();
    assert_eq!(reg.active, 0);
    assert_eq!(reg.pipelines.len(), 2);
}

#[test]
fn built_pipeline_fixes_function_state() {
    let layout = position_texcoord_layout();
    let fmt = SurfaceFormat { id: 11, srgb: true };
    let p = build_pipeline(7, layout, fmt);
    assert_eq!(p.shader_module, 7);
    assert_eq!(p.output_format, fmt);
    assert_eq!(p.topology, PrimitiveTopology::TriangleList);
    assert_eq!(p.front_face, FrontFace::Ccw);
    assert_eq!(p.cull_mode, CullMode::CullBack);
    assert_eq!(p.blend, BlendMode::Replace);
    assert!(!p.depth_stencil);
    assert_eq!(p.sample_count, 1);
}
