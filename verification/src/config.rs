//! User-facing settings that carry no floating-point values.

use vstd::prelude::*;

verus! {

/// Visual effect toggles persisted with the user settings.
#[derive(Debug, Clone, Copy, PartialEq, Eq, Structural)]
pub struct VisualSettings {
    pub particles: bool,
    pub trail: bool,
    pub max_particles: usize,
}

impl Default for VisualSettings {
    /// Particles and trail on, with room for 2000 particles.
    fn default() -> (s: Self)
        ensures
            s == (VisualSettings { particles: true, trail: true, max_particles: 2000 }),
    {
        VisualSettings { particles: true, trail: true, max_particles: 2000 }
    }
}

} // verus!
