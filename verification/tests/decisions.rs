use pathtracer::camera::RenderConfig;
use pathtracer::material::{emits, scatters, MaterialKind};
use pathtracer::sphere::{select_root, RootChoice};
use pathtracer::tracer::{trace_step, TraceEvent, TraceAction};

#[test]
fn depth_zero_is_black_on_miss() {
    assert_eq!(trace_step(0, TraceEvent::Miss), TraceAction::Black);
}

#[test]
fn depth_zero_is_black_on_hit() {
    assert_eq!(
        trace_step(0, TraceEvent::Hit { scattered: true }),
        TraceAction::Black
    );
    assert_eq!(
        trace_step(0, TraceEvent::Hit { scattered: false }),
        TraceAction::Black
    );
}

#[test]
fn miss_gives_background() {
    assert_eq!(trace_step(10, TraceEvent::Miss), TraceAction::Background);
}

#[test]
fn absorbed_hit_gives_emission_only() {
    assert_eq!(
        trace_step(10, TraceEvent::Hit { scattered: false }),
        TraceAction::Emitted
    );
}

#[test]
fn scattered_hit_bounces_with_one_less_depth() {
    assert_eq!(
        trace_step(10, TraceEvent::Hit { scattered: true }),
        TraceAction::EmittedPlusScattered { next_depth: 9 }
    );
    assert_eq!(
        trace_step(1, TraceEvent::Hit { scattered: true }),
        TraceAction::EmittedPlusScattered { next_depth: 0 }
    );
}

#[test]
fn path_exhausts_its_bounce_budget() {
    let mut depth = 2;
    let mut bounces = 0;
    loop {
        match trace_step(depth, TraceEvent::Hit { scattered: true }) {
            TraceAction::EmittedPlusScattered { next_depth } => {
                bounces += 1;
                depth = next_depth;
            }
            action => {
                assert_eq!(action, TraceAction::Black);
                break;
            }
        }
    }
    assert_eq!(bounces, 2);
    assert_eq!(depth, 0);
}

#[test]
fn emissive_never_scatters() {
    assert!(!scatters(MaterialKind::Emissive, false));
    assert!(!scatters(MaterialKind::Emissive, true));
}

#[test]
fn diffuse_always_scatters() {
    assert!(scatters(MaterialKind::Diffuse, false));
    assert!(scatters(MaterialKind::Diffuse, true));
}

#[test]
fn specular_absorbs_only_into_surface() {
    assert!(scatters(MaterialKind::Specular, false));
    assert!(!scatters(MaterialKind::Specular, true));
}

#[test]
fn only_the_emissive_variant_emits() {
    assert!(emits(MaterialKind::Emissive));
    assert!(!emits(MaterialKind::Diffuse));
    assert!(!emits(MaterialKind::Specular));
}

#[test]
fn config_rejects_zero_samples() {
    assert!(RenderConfig::new(0, 10).is_none());
}

#[test]
fn config_carries_its_values() {
    let cfg = RenderConfig::new(75, 10).unwrap();
    assert_eq!(cfg.samples_per_pixel(), 75);
    assert_eq!(cfg.max_depth(), 10);
    let zero_depth = RenderConfig::new(1, 0).unwrap();
    assert_eq!(zero_depth.samples_per_pixel(), 1);
    assert_eq!(zero_depth.max_depth(), 0);
}

#[test]
fn near_root_preferred() {
    assert_eq!(select_root(true, true, true), RootChoice::Near);
    assert_eq!(select_root(true, true, false), RootChoice::Near);
}

#[test]
fn far_root_when_near_out_of_range() {
    assert_eq!(select_root(true, false, true), RootChoice::Far);
}

#[test]
fn miss_without_real_roots() {
    assert_eq!(select_root(false, false, false), RootChoice::Miss);
    assert_eq!(select_root(false, true, true), RootChoice::Miss);
}

#[test]
fn miss_when_interval_excludes_both_roots() {
    assert_eq!(select_root(true, false, false), RootChoice::Miss);
}
