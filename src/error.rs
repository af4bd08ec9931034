use vstd::prelude::*;

verus! {

/// What can go wrong in setting up or running a simulation.
#[derive(Debug, Clone, Copy, PartialEq, Eq, Structural)]
pub enum SimError {
    /// The particle count does not fill a whole block of fcc unit cells (4·k³).
    InvalidParticleCount,
    /// Positions and velocities describe different numbers of particles.
    ParticleCountMismatch,
    /// The time step is not strictly smaller than the total run time.
    TimeStepTooLarge,
    /// A buffer of the requested shape cannot be addressed on this machine.
    ShapeTooLarge,
    /// A distance, displacement or force came out as NaN.
    NumericalInvariantViolation,
    /// The integrator's execution backend is not available.
    BackendUnavailable,
}

} // verus!
