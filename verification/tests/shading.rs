use raytrace::shading::{
    light_contributes, propagate, Contact, Index, Probe, Step, TraceState, PRIMARY_DEPTH,
    REFRACTION_LIMIT,
};

fn opaque() -> Probe {
    Probe::Hit(Contact { transmissive: false, refractable: false, in_vacuum: true })
}

fn glass(in_vacuum: bool) -> Probe {
    Probe::Hit(Contact { transmissive: true, refractable: true, in_vacuum })
}

fn chain(mut state: TraceState, probe: Probe, limit: usize) -> usize {
    let mut rays = 0;
    while rays < limit {
        rays += 1;
        match propagate(state, probe) {
            Step::Background => break,
            Step::Refract { next, .. } => state = next,
            Step::Illuminate { mirror: Some(next) } => state = next,
            Step::Illuminate { mirror: None } => break,
        }
    }
    rays
}

#[test]
fn primary_ray_has_five_bounces() {
    let state = TraceState::primary();
    assert_eq!(state.depth, 5);
    assert_eq!(PRIMARY_DEPTH, 5);
    assert_eq!(state.refractions, REFRACTION_LIMIT);
}

#[test]
fn miss_ends_in_the_background() {
    assert_eq!(propagate(TraceState::primary(), Probe::Miss), Step::Background);
    assert_eq!(propagate(TraceState { depth: 0, refractions: 0 }, Probe::Miss), Step::Background);
}

#[test]
fn opaque_surface_is_lit_and_mirrored_with_one_bounce_less() {
    let step = propagate(TraceState { depth: 5, refractions: 16 }, opaque());
    assert_eq!(step, Step::Illuminate { mirror: Some(TraceState { depth: 4, refractions: 16 }) });
}

#[test]
fn no_mirror_ray_at_depth_zero() {
    let step = propagate(TraceState { depth: 0, refractions: 16 }, opaque());
    assert_eq!(step, Step::Illuminate { mirror: None });
}

#[test]
fn refraction_keeps_the_depth_and_toggles_the_index() {
    let state = TraceState { depth: 3, refractions: 2 };
    assert_eq!(
        propagate(state, glass(true)),
        Step::Refract { next: TraceState { depth: 3, refractions: 1 }, index: Index::Material }
    );
    assert_eq!(
        propagate(state, glass(false)),
        Step::Refract { next: TraceState { depth: 3, refractions: 1 }, index: Index::Vacuum }
    );
}

#[test]
fn total_internal_reflection_is_shaded_as_opaque() {
    let probe = Probe::Hit(Contact { transmissive: true, refractable: false, in_vacuum: false });
    assert_eq!(
        propagate(TraceState { depth: 2, refractions: 9 }, probe),
        Step::Illuminate { mirror: Some(TraceState { depth: 1, refractions: 9 }) }
    );
}

#[test]
fn non_transmissive_material_never_refracts() {
    let probe = Probe::Hit(Contact { transmissive: false, refractable: true, in_vacuum: true });
    assert_eq!(
        propagate(TraceState { depth: 1, refractions: 9 }, probe),
        Step::Illuminate { mirror: Some(TraceState { depth: 0, refractions: 9 }) }
    );
}

#[test]
fn exhausted_refractions_shade_as_opaque() {
    assert_eq!(
        propagate(TraceState { depth: 1, refractions: 0 }, glass(true)),
        Step::Illuminate { mirror: Some(TraceState { depth: 0, refractions: 0 }) }
    );
    assert_eq!(
        propagate(TraceState { depth: 0, refractions: 0 }, glass(true)),
        Step::Illuminate { mirror: None }
    );
}

#[test]
fn mirrored_opaque_scene_stops_after_six_rays() {
    assert_eq!(chain(TraceState::primary(), opaque(), 1000), 6);
    assert_eq!(chain(TraceState { depth: 0, refractions: 16 }, opaque(), 1000), 1);
}

#[test]
fn glass_scene_stops_too() {
    let rays = chain(TraceState::primary(), glass(true), 1000);
    assert_eq!(rays, (PRIMARY_DEPTH + REFRACTION_LIMIT + 1) as usize);
}

#[test]
fn shadowed_light_adds_nothing() {
    assert!(!light_contributes(true, false));
    assert!(!light_contributes(true, true));
}

#[test]
fn light_below_the_horizon_adds_nothing() {
    assert!(!light_contributes(false, true));
}

#[test]
fn free_light_above_the_horizon_contributes() {
    assert!(light_contributes(false, false));
}
