use vstd::prelude::*;

use crate::errors::HsmError;

verus! {

/// The lifecycle state of one interface family (TPM, X.509, or
/// crypto): an explicit context object in place of process-wide
/// globals. Init must happen exactly once before any create, and
/// deinit exactly once after every handle of the family is destroyed;
/// the guards fail fast instead of corrupting state.
pub struct ModuleState {
    /// Whether the family's init has run and not yet been undone.
    pub initialized: bool,
    /// How many handles of the family are currently alive.
    pub live_handles: u64,
}

impl ModuleState {
    /// The lifecycle invariant: a family that is not initialized has no
    /// live handles.
    pub open spec fn wf(&self) -> bool {
        !self.initialized ==> self.live_handles == 0
    }

    /// A fresh family: not initialized, no live handles.
    pub fn new() -> (m: ModuleState)
        ensures
            m.wf(),
            !m.initialized,
            m.live_handles == 0,
    {
        ModuleState { initialized: false, live_handles: 0 }
    }

    /// Runs the family's init. A second init is refused: double-init is
    /// a contract violation answered with `AlreadyProvisioned`.
    pub fn init(&mut self) -> (r: Result<(), HsmError>)
        requires
            old(self).wf(),
        ensures
            final(self).wf(),
            old(self).initialized ==> r == Result::<(), HsmError>::Err(HsmError::AlreadyProvisioned)
                && *final(self) == *old(self),
            !old(self).initialized ==> r is Ok && final(self).initialized && final(self).live_handles == 0,
    {
        if self.initialized {
            return Result::Err(HsmError::AlreadyProvisioned);
        }
        self.initialized = true;
        Result::Ok(())
    }

    /// Runs the family's deinit. Refused before init
    /// (`NotProvisioned`) and while handles are still alive
    /// (`InvalidArgument`): deinit-while-handles-alive would strand
    /// them.
    pub fn deinit(&mut self) -> (r: Result<(), HsmError>)
        requires
            old(self).wf(),
        ensures
            final(self).wf(),
            !old(self).initialized ==> r == Result::<(), HsmError>::Err(HsmError::NotProvisioned)
                && *final(self) == *old(self),
            old(self).initialized && old(self).live_handles > 0 ==> r == Result::<(), HsmError>::Err(
                HsmError::InvalidArgument,
            ) && *final(self) == *old(self),
            old(self).initialized && old(self).live_handles == 0 ==> r is Ok && !final(self).initialized && final(self).live_handles == 0,
    {
        if !self.initialized {
            return Result::Err(HsmError::NotProvisioned);
        }
        if self.live_handles > 0 {
            return Result::Err(HsmError::InvalidArgument);
        }
        self.initialized = false;
        Result::Ok(())
    }

    /// Accounts for a create on this family; refused before init.
    pub fn on_create(&mut self) -> (r: Result<(), HsmError>)
        requires
            old(self).wf(),
        ensures
            final(self).wf(),
            !old(self).initialized ==> r == Result::<(), HsmError>::Err(HsmError::NotProvisioned)
                && *final(self) == *old(self),
            old(self).initialized && old(self).live_handles == u64::MAX ==> r == Result::<
                (),
                HsmError,
            >::Err(HsmError::BackendFailure) && *final(self) == *old(self),
            old(self).initialized && old(self).live_handles < u64::MAX ==> r is Ok && final(self).initialized && final(self).live_handles == old(self).live_handles + 1,
    {
        if !self.initialized {
            return Result::Err(HsmError::NotProvisioned);
        }
        if self.live_handles == u64::MAX {
            return Result::Err(HsmError::BackendFailure);
        }
        self.live_handles = self.live_handles + 1;
        Result::Ok(())
    }

    /// Accounts for a destroy on this family; refused when no handle
    /// is alive.
    pub fn on_destroy(&mut self) -> (r: Result<(), HsmError>)
        requires
            old(self).wf(),
        ensures
            final(self).wf(),
            old(self).live_handles == 0 ==> r == Result::<(), HsmError>::Err(HsmError::InvalidHandle)
                && *final(self) == *old(self),
            old(self).live_handles > 0 ==> r is Ok && final(self).initialized == old(self).initialized && final(self).live_handles == old(self).live_handles - 1,
    {
        if self.live_handles == 0 {
            return Result::Err(HsmError::InvalidHandle);
        }
        self.live_handles = self.live_handles - 1;
        Result::Ok(())
    }
}

} // verus!
