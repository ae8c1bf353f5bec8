//! Lifecycle bookkeeping for interception points.
//!
//! An `InterceptionPoint` records one hooked function: the address of the
//! original function, the continuation through which the original behavior
//! remains callable, and whether redirection is currently active.  The actual
//! patching of executable memory is done by an unverified engine outside this
//! crate; the engine's report is handed in as a `PatchOutcome`, and this
//! module enforces the lifecycle rules on top of it: a point is created once
//! at attach, enabled, disabled at detach, and its continuation may only be
//! used while the point is enabled.

use vstd::prelude::*;

verus! {

/// What the unverified patching engine reported for one install attempt.
#[derive(Clone, Copy, Debug, PartialEq, Eq, Structural)]
pub enum PatchOutcome {
    /// The original function was patched; the original behavior is reachable
    /// through a generated stub at this address.
    Patched { continuation: u64 },
    /// The site could not be disassembled or patched.
    Unpatchable,
}

/// The original function could not be intercepted.
#[derive(Clone, Copy, Debug, PartialEq, Eq, Structural)]
pub struct HookInstallError {
    /// The address that could not be patched.
    pub original_address: u64,
}

/// Lifecycle misuse of an interception point.
#[derive(Clone, Copy, Debug, PartialEq, Eq, Structural)]
pub enum HookStateError {
    /// `enable` was called on a point that is already enabled.
    AlreadyEnabled,
    /// `disable` or `continuation` was called on a point that is not enabled.
    NotEnabled,
}

/// One hooked function and its redirection state.
#[derive(Clone, Copy, Debug, PartialEq, Eq, Structural)]
pub struct InterceptionPoint {
    /// Process-relative address of the hooked function.
    pub original_address: u64,
    /// Address of the stub that runs the original behavior; nonzero once
    /// installed.
    pub continuation: u64,
    /// Whether redirection is currently active.
    pub enabled: bool,
}

impl InterceptionPoint {
    /// Well-formedness: an installed point always has a real continuation.
    pub open spec fn wf(self) -> bool {
        self.continuation != 0
    }

    /// Whether a patch report is a usable installation.
    pub open spec fn patch_ok(patch: PatchOutcome) -> bool {
        match patch {
            PatchOutcome::Patched { continuation } => continuation != 0,
            PatchOutcome::Unpatchable => false,
        }
    }

    /// Records a fresh interception point from the engine's patch report.
    /// Fails exactly when the report says the site could not be patched or
    /// names a null stub.  A fresh point is not yet enabled.
    pub fn install(original_address: u64, patch: PatchOutcome)
        -> (r: Result<InterceptionPoint, HookInstallError>)
        ensures
            match r {
                Ok(point) => Self::patch_ok(patch) && point.wf() && !point.enabled
                    && point.original_address == original_address
                    && patch == (PatchOutcome::Patched { continuation: point.continuation }),
                Err(e) => !Self::patch_ok(patch)
                    && e == (HookInstallError { original_address }),
            },
    {
        match patch {
            PatchOutcome::Patched { continuation } => {
                if continuation != 0 {
                    Ok(InterceptionPoint { original_address, continuation, enabled: false })
                } else {
                    Err(HookInstallError { original_address })
                }
            }
            PatchOutcome::Unpatchable => Err(HookInstallError { original_address }),
        }
    }

    /// Activates redirection.  Fails exactly when the point is already
    /// enabled; on failure the point is unchanged.
    pub fn enable(&mut self) -> (r: Result<(), HookStateError>)
        ensures
            match r {
                Ok(()) => !old(self).enabled && final(self).enabled,
                Err(e) => old(self).enabled && e == HookStateError::AlreadyEnabled
                    && final(self).enabled,
            },
            final(self).original_address == old(self).original_address,
            final(self).continuation == old(self).continuation,
    {
        if self.enabled {
            Err(HookStateError::AlreadyEnabled)
        } else {
            self.enabled = true;
            Ok(())
        }
    }

    /// Restores the original bytes.  Fails exactly when the point is not
    /// enabled; on failure the point is unchanged.
    pub fn disable(&mut self) -> (r: Result<(), HookStateError>)
        ensures
            match r {
                Ok(()) => old(self).enabled && !final(self).enabled,
                Err(e) => !old(self).enabled && e == HookStateError::NotEnabled
                    && !final(self).enabled,
            },
            final(self).original_address == old(self).original_address,
            final(self).continuation == old(self).continuation,
    {
        if self.enabled {
            self.enabled = false;
            Ok(())
        } else {
            Err(HookStateError::NotEnabled)
        }
    }

    /// The stub address through which the original behavior runs, valid only
    /// while the point is enabled.
    pub fn continuation(&self) -> (r: Result<u64, HookStateError>)
        ensures
            match r {
                Ok(c) => self.enabled && c == self.continuation,
                Err(e) => !self.enabled && e == HookStateError::NotEnabled,
            },
    {
        if self.enabled {
            Ok(self.continuation)
        } else {
            Err(HookStateError::NotEnabled)
        }
    }

    /// Whether redirection is currently active.
    pub fn is_enabled(&self) -> (r: bool)
        ensures
            r == self.enabled,
    {
        self.enabled
    }
}

} // verus!
