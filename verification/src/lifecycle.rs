use vstd::prelude::*;

verus! {

/// Process-wide lifecycle guard for the engine: whether its global setup
/// has run, and how many engine-owned values (compiled patterns, live
/// capture buffers) are outstanding. One guard serves one process, with
/// access serialized by the caller; following its answers makes the
/// global setup run at most once and keeps shutdown away from live
/// handles.
pub struct EngineLifecycle {
    initialized: bool,
    live_handles: usize,
}

impl EngineLifecycle {
    /// Whether the engine's global setup has run.
    pub closed spec fn initialized(&self) -> bool {
        self.initialized
    }

    /// How many engine-owned values are outstanding.
    pub closed spec fn live(&self) -> usize {
        self.live_handles
    }

    /// The guard of a process in which the engine has not been touched.
    pub fn new() -> (r: EngineLifecycle)
        ensures
            !r.initialized(),
            r.live() == 0,
    {
        EngineLifecycle { initialized: false, live_handles: 0 }
    }

    /// Whether the engine's global setup has run, for callers that must
    /// check before recording a handle.
    pub fn is_initialized(&self) -> (r: bool)
        ensures
            r == self.initialized(),
    {
        self.initialized
    }

    /// How many engine-owned values are outstanding.
    pub fn live_count(&self) -> (r: usize)
        ensures
            r == self.live(),
    {
        self.live_handles
    }

    /// The idempotent initialization question: answers whether the engine's
    /// global setup must run now. It answers yes exactly on the first
    /// call, so the setup runs at most once per process however many
    /// patterns are created.
    pub fn ensure_initialized(&mut self) -> (run_setup: bool)
        ensures
            final(self).initialized(),
            final(self).live() == old(self).live(),
            run_setup <==> !old(self).initialized(),
    {
        let run_setup = !self.initialized;
        self.initialized = true;
        run_setup
    }

    /// Records one engine-owned value coming alive. Values exist only
    /// after the global setup ran.
    pub fn handle_created(&mut self)
        requires
            old(self).initialized(),
            old(self).live() < usize::MAX,
        ensures
            final(self).initialized(),
            final(self).live() == old(self).live() + 1,
    {
        self.live_handles += 1;
    }

    /// Records one engine-owned value released; each value is released
    /// exactly once, so there is one of these per `handle_created`.
    pub fn handle_released(&mut self)
        requires
            old(self).live() > 0,
        ensures
            final(self).initialized() == old(self).initialized(),
            final(self).live() == old(self).live() - 1,
    {
        self.live_handles -= 1;
    }

    /// The shutdown question: answers whether the engine's global teardown
    /// may run now. Teardown is allowed exactly when setup ran and no
    /// engine-owned value is outstanding; a refused shutdown changes
    /// nothing, so it can be retried once the handles are gone.
    pub fn try_shutdown(&mut self) -> (r: bool)
        ensures
            r <==> old(self).initialized() && old(self).live() == 0,
            r ==> !final(self).initialized(),
            !r ==> *final(self) == *old(self),
            final(self).live() == old(self).live(),
    {
        if self.initialized && self.live_handles == 0 {
            self.initialized = false;
            true
        } else {
            false
        }
    }
}

} // verus!
