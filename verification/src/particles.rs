//! Particle kinds.

use vstd::prelude::*;

verus! {

/// What spawned a particle, which controls its look and behaviour.
#[derive(Debug, Clone, Copy, PartialEq, Eq, Structural)]
pub enum ParticleKind {
    /// Soft motes left behind while the ball moves.
    Mote,
    /// Bright sparks emitted on a wall impact.
    Spark,
    /// Burst emitted when the ball is thrown.
    Burst,
    /// Glass flecks emitted when a marble cracks or shatters.
    Shard,
}

} // verus!
