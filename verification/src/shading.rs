//! Propagation of a ray through the scene: which of background, refraction
//! and local illumination a ray ends in, which ray follows it, and why every
//! chain of rays ends.

use crate::nearest::blocks;
use crate::nearest::shadowed;
use vstd::prelude::*;

verus! {

/// Mirror bounces granted to a ray that leaves the camera.
pub const PRIMARY_DEPTH: u32 = 5;

/// Surface crossings granted to a ray that leaves the camera, over the whole
/// chain of rays that follows from it. A ray that has used them up treats
/// every further surface as opaque.
pub const REFRACTION_LIMIT: u32 = 16;

/// What is left to a ray for spawning further rays.
#[derive(Clone, Copy, Debug, PartialEq, Eq, Structural)]
pub struct TraceState {
    /// Mirror bounces left.
    pub depth: u32,
    /// Surface crossings left.
    pub refractions: u32,
}

/// What the renderer found where a ray first meets a surface.
#[derive(Clone, Copy, Debug, PartialEq, Eq, Structural)]
pub struct Contact {
    /// The material's transmission factor is positive.
    pub transmissive: bool,
    /// Snell's law has a real solution here, that is, no total internal
    /// reflection occurs.
    pub refractable: bool,
    /// The ray travels with the refractive index of vacuum.
    pub in_vacuum: bool,
}

/// The outcome of looking for the nearest surface along a ray.
#[derive(Clone, Copy, Debug, PartialEq, Eq, Structural)]
pub enum Probe {
    /// No surface lies ahead.
    Miss,
    /// The nearest surface, with what was found there.
    Hit(Contact),
}

/// The refractive index that a transmitted ray travels with.
#[derive(Clone, Copy, Debug, PartialEq, Eq, Structural)]
pub enum Index {
    /// The index of vacuum.
    Vacuum,
    /// The index of the material just entered.
    Material,
}

/// What a ray's colour is made of.
#[derive(Clone, Copy, Debug, PartialEq, Eq, Structural)]
pub enum Step {
    /// The background colour. No ray follows.
    Background,
    /// The colour of the transmitted ray and nothing else: ambient, diffuse,
    /// specular and mirror terms are all left out.
    Refract { next: TraceState, index: Index },
    /// Ambient light and the lights' contributions, plus the mirrored ray's
    /// colour, weighted by the specular factor, where `mirror` holds a state.
    /// The mirrored ray travels in vacuum.
    Illuminate { mirror: Option<TraceState> },
}

impl TraceState {
    /// The sum that every spawned ray lowers by one.
    pub open spec fn budget(self) -> nat {
        (self.depth + self.refractions) as nat
    }

    /// The state of a ray that leaves the camera.
    pub open spec fn spec_primary() -> TraceState {
        TraceState { depth: PRIMARY_DEPTH, refractions: REFRACTION_LIMIT }
    }

    /// The state of a ray that leaves the camera.
    #[verifier::when_used_as_spec(spec_primary)]
    pub fn primary() -> (state: TraceState)
        ensures
            state == TraceState::spec_primary(),
            state.depth == 5,
    {
        TraceState { depth: PRIMARY_DEPTH, refractions: REFRACTION_LIMIT }
    }
}

/// Whether the ray crosses the surface it met.
pub open spec fn crosses(state: TraceState, contact: Contact) -> bool {
    contact.transmissive && contact.refractable && state.refractions > 0
}

/// The propagation rule.
pub open spec fn plan(state: TraceState, probe: Probe) -> Step {
    match probe {
        Probe::Miss => Step::Background,
        Probe::Hit(contact) => if crosses(state, contact) {
            Step::Refract {
                next: TraceState { depth: state.depth, refractions: (state.refractions - 1) as u32 },
                index: if contact.in_vacuum {
                    Index::Material
                } else {
                    Index::Vacuum
                },
            }
        } else if state.depth > 0 {
            Step::Illuminate {
                mirror: Some(
                    TraceState { depth: (state.depth - 1) as u32, refractions: state.refractions },
                ),
            }
        } else {
            Step::Illuminate { mirror: None }
        },
    }
}

/// The state of the ray that a step spawns, if it spawns one.
pub open spec fn successor(step: Step) -> Option<TraceState> {
    match step {
        Step::Background => None,
        Step::Refract { next, .. } => Some(next),
        Step::Illuminate { mirror } => mirror,
    }
}

/// Decides what a ray's colour is made of and which ray follows it.
///
/// A miss ends in the background. A transmissive surface that admits a
/// refracted direction is crossed while crossings are left: the next ray
/// keeps the depth and travels in the material if this one travelled in
/// vacuum, else in vacuum. Every other surface is lit locally, and mirrored
/// with one bounce less while bounces are left.
pub fn propagate(state: TraceState, probe: Probe) -> (step: Step)
    ensures
        step == plan(state, probe),
        successor(step) matches Some(next) ==> next.budget() + 1 == state.budget(),
{
    match probe {
        Probe::Miss => Step::Background,
        Probe::Hit(contact) => {
            if contact.transmissive && contact.refractable && state.refractions > 0 {
                let index = if contact.in_vacuum {
                    Index::Material
                } else {
                    Index::Vacuum
                };
                Step::Refract {
                    next: TraceState { depth: state.depth, refractions: state.refractions - 1 },
                    index,
                }
            } else if state.depth > 0 {
                Step::Illuminate {
                    mirror: Some(
                        TraceState { depth: state.depth - 1, refractions: state.refractions },
                    ),
                }
            } else {
                Step::Illuminate { mirror: None }
            }
        },
    }
}

/// The rule for one light at one surface point.
pub open spec fn contributes(shadowed: bool, below_horizon: bool) -> bool {
    !shadowed && !below_horizon
}

/// Whether a light adds its diffuse and specular terms at a surface point.
///
/// A light that is blocked, or that lies below the surface's horizon, adds
/// nothing at all.
pub fn light_contributes(shadowed: bool, below_horizon: bool) -> (lit: bool)
    ensures
        lit == contributes(shadowed, below_horizon),
        shadowed ==> !lit,
{
    !shadowed && !below_horizon
}

/// A light adds nothing at a point from which another surface hides it,
/// wherever the light stands above the horizon.
pub proof fn lemma_blocked_light_adds_nothing(
    hits: Seq<Option<u32>>,
    ignore_index: int,
    reach: u32,
    blocker: int,
    below_horizon: bool,
)
    requires
        blocks(hits, ignore_index, reach, blocker),
    ensures
        !contributes(shadowed(hits, ignore_index, reach), below_horizon),
{
}

/// A light that no other surface hides contributes at every point that
/// faces it. The surface that carries the point does not hide it.
pub proof fn lemma_free_light_contributes(hits: Seq<Option<u32>>, ignore_index: int, reach: u32)
    requires
        forall|i: int| !blocks(hits, ignore_index, reach, i),
    ensures
        contributes(shadowed(hits, ignore_index, reach), false),
{
}

/// The number of rays in the chain that starts with a ray in `state`, when
/// the i-th ray of the chain finds `probes[i]`. The chain ends where a step
/// spawns no ray, or where `probes` ends.
pub open spec fn chain_length(state: TraceState, probes: Seq<Probe>) -> nat
    decreases probes.len(),
{
    if probes.len() == 0 {
        0
    } else {
        match successor(plan(state, probes[0])) {
            None => 1,
            Some(next) => 1 + chain_length(next, probes.drop_first()),
        }
    }
}

/// No probe of the sequence meets a transmissive material.
pub open spec fn all_opaque(probes: Seq<Probe>) -> bool {
    forall|i: int|
        0 <= i < probes.len() ==> match #[trigger] probes[i] {
            Probe::Miss => true,
            Probe::Hit(contact) => !contact.transmissive,
        }
}

/// Every chain of rays ends: whatever the rays find, a chain holds at most
/// one ray more than the bounces and crossings its first ray was granted.
pub proof fn lemma_chain_is_bounded(state: TraceState, probes: Seq<Probe>)
    ensures
        chain_length(state, probes) <= state.budget() + 1,
    decreases probes.len(),
{
    if probes.len() > 0 {
        match successor(plan(state, probes[0])) {
            None => {},
            Some(next) => {
                lemma_chain_is_bounded(next, probes.drop_first());
            },
        }
    }
}

/// In a scene without transmissive materials a chain holds at most one ray
/// more than the bounces its first ray was granted, however many surfaces
/// mirror it.
pub proof fn lemma_opaque_chain_is_bounded(state: TraceState, probes: Seq<Probe>)
    requires
        all_opaque(probes),
    ensures
        chain_length(state, probes) <= state.depth + 1,
    decreases probes.len(),
{
    if probes.len() > 0 {
        let rest = probes.drop_first();
        assert forall|i: int| 0 <= i < rest.len() implies match #[trigger] rest[i] {
            Probe::Miss => true,
            Probe::Hit(contact) => !contact.transmissive,
        } by {
            assert(rest[i] == probes[i + 1]);
        }
        match successor(plan(state, probes[0])) {
            None => {},
            Some(next) => {
                assert(next.depth + 1 == state.depth);
                lemma_opaque_chain_is_bounded(next, rest);
            },
        }
    }
}

/// A ray that leaves the camera into a scene without transmissive materials
/// starts a chain of at most six rays.
pub proof fn lemma_primary_opaque_chain(probes: Seq<Probe>)
    requires
        all_opaque(probes),
    ensures
        chain_length(TraceState::spec_primary(), probes) <= 6,
{
    lemma_opaque_chain_is_bounded(TraceState::spec_primary(), probes);
}

} // verus!
