use vstd::prelude::*;
use crate::error::SimError;

verus! {

/// The velocity-Verlet integrator. It holds no backend resources, so
/// initialising and releasing it do nothing and always succeed.
#[derive(Debug, Clone, Copy, PartialEq, Eq, Structural)]
pub struct Verlet {}

impl Verlet {
    pub fn initialisation(&mut self) -> (r: Result<(), SimError>)
        ensures
            r == Ok::<(), SimError>(()),
            *final(self) == *old(self),
    {
        Ok(())
    }

    pub fn deinit(&mut self) -> (r: Result<(), SimError>)
        ensures
            r == Ok::<(), SimError>(()),
            *final(self) == *old(self),
    {
        Ok(())
    }
}

/// A slot for a hardware-accelerated velocity-Verlet backend. No such
/// backend exists in this library: initialisation always reports it
/// unavailable, so a run with this integrator stops before its first step.
#[derive(Debug, Clone, Copy, PartialEq, Eq, Structural)]
pub struct VerletCUDA {}

impl VerletCUDA {
    pub fn initialisation(&mut self) -> (r: Result<(), SimError>)
        ensures
            r == Err::<(), SimError>(SimError::BackendUnavailable),
            *final(self) == *old(self),
    {
        Err(SimError::BackendUnavailable)
    }

    pub fn deinit(&mut self) -> (r: Result<(), SimError>)
        ensures
            r == Ok::<(), SimError>(()),
            *final(self) == *old(self),
    {
        Ok(())
    }
}

} // verus!
