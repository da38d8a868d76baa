//! The lifecycle of the process-wide NDI runtime: a phase and a count of live
//! handles, changed only by the transitions below. The caller holds a lock
//! around each transition and runs the SDK's initialize and destroy calls
//! between them, outside the lock.
//!
//! Phases: `Uninitialized` or `Failed` → `Initializing` → `Running` (success)
//! or `Failed` (failure); `Running` → `Destroying` → `Uninitialized` on the last
//! release.

use vstd::prelude::*;

use crate::error::Error;

verus! {

/// Phase of the runtime.
#[derive(Debug, Clone, Copy, PartialEq, Eq, Structural)]
pub enum Phase {
    /// Not initialized; ready to initialize.
    Uninitialized,
    /// Initialization in progress; others wait.
    Initializing,
    /// Active, with at least one live handle.
    Running,
    /// Destruction in progress; others wait.
    Destroying,
    /// The last initialization failed; a retry is allowed.
    Failed,
}

/// Phase and live-handle count of the runtime.
#[derive(Debug, Clone, Copy, PartialEq, Eq, Structural)]
pub struct RuntimeState {
    pub phase: Phase,
    pub refcount: usize,
}

/// What a handle acquisition must do next.
#[derive(Debug, Clone, Copy, PartialEq, Eq, Structural)]
pub enum AcquireStep {
    /// Call the SDK's initialize outside the lock, then report the outcome.
    Initialize,
    /// Another thread is initializing or destroying; wait and try again.
    Wait,
    /// The runtime was running; the handle is counted.
    Acquired,
}

/// The states the transitions keep: handles are counted only while running.
pub open spec fn runtime_wf(s: RuntimeState) -> bool {
    (s.phase == Phase::Running) <==> s.refcount > 0
}

/// The state after the first step of an acquisition, and that step.
pub open spec fn acquire_next(s: RuntimeState) -> (RuntimeState, AcquireStep) {
    match s.phase {
        Phase::Uninitialized | Phase::Failed => (
            RuntimeState { phase: Phase::Initializing, refcount: 0 },
            AcquireStep::Initialize,
        ),
        Phase::Initializing | Phase::Destroying => (s, AcquireStep::Wait),
        Phase::Running => (
            RuntimeState { phase: Phase::Running, refcount: (s.refcount + 1) as usize },
            AcquireStep::Acquired,
        ),
    }
}

/// The state after the SDK's initialize reported `succeeded`.
pub open spec fn initialized(succeeded: bool) -> RuntimeState {
    if succeeded {
        RuntimeState { phase: Phase::Running, refcount: 1 }
    } else {
        RuntimeState { phase: Phase::Failed, refcount: 0 }
    }
}

/// The state after a release, and whether it was the last handle.
pub open spec fn release_next(s: RuntimeState) -> (RuntimeState, bool) {
    if s.refcount == 1 {
        (RuntimeState { phase: Phase::Destroying, refcount: 0 }, true)
    } else {
        (RuntimeState { phase: Phase::Running, refcount: (s.refcount - 1) as usize }, false)
    }
}

/// The state after the SDK's destroy returned.
pub open spec fn destroyed() -> RuntimeState {
    RuntimeState { phase: Phase::Uninitialized, refcount: 0 }
}

impl RuntimeState {
    /// The state before anything happened.
    pub fn new() -> (r: RuntimeState)
        ensures
            r == destroyed(),
            runtime_wf(r),
    {
        RuntimeState { phase: Phase::Uninitialized, refcount: 0 }
    }

    /// First step of acquiring a handle: claim the initialization when there is
    /// no runtime, wait while one is changing, or count one more handle.
    pub fn begin_acquire(&mut self) -> (r: AcquireStep)
        requires
            runtime_wf(*old(self)),
            old(self).refcount < usize::MAX,
        ensures
            (*final(self), r) == acquire_next(*old(self)),
            runtime_wf(*final(self)) || final(self).phase == Phase::Initializing,
    {
        match self.phase {
            Phase::Uninitialized | Phase::Failed => {
                self.phase = Phase::Initializing;
                AcquireStep::Initialize
            },
            Phase::Initializing | Phase::Destroying => AcquireStep::Wait,
            Phase::Running => {
                self.refcount = self.refcount + 1;
                AcquireStep::Acquired
            },
        }
    }

    /// Records the outcome of the SDK's initialize: running with one handle, or
    /// failed.
    pub fn finish_initialize(&mut self, succeeded: bool) -> (r: Result<(), Error>)
        requires
            old(self).phase == Phase::Initializing,
            old(self).refcount == 0,
        ensures
            *final(self) == initialized(succeeded),
            runtime_wf(*final(self)),
            r is Ok <==> succeeded,
            r matches Err(e) ==> e is InitializationFailed,
    {
        if succeeded {
            self.phase = Phase::Running;
            self.refcount = 1;
            Ok(())
        } else {
            self.phase = Phase::Failed;
            Err(Error::InitializationFailed("NDIlib_initialize failed".to_string()))
        }
    }

    /// Releases a handle; returns true when it was the last, and the caller must
    /// then call the SDK's destroy and report it.
    pub fn begin_release(&mut self) -> (r: bool)
        requires
            runtime_wf(*old(self)),
            old(self).phase == Phase::Running,
        ensures
            (*final(self), r) == release_next(*old(self)),
            runtime_wf(*final(self)) || final(self).phase == Phase::Destroying,
    {
        self.refcount = self.refcount - 1;
        if self.refcount == 0 {
            self.phase = Phase::Destroying;
            true
        } else {
            false
        }
    }

    /// Records that the SDK's destroy returned.
    pub fn finish_destroy(&mut self)
        requires
            old(self).phase == Phase::Destroying,
            old(self).refcount == 0,
        ensures
            *final(self) == destroyed(),
            runtime_wf(*final(self)),
    {
        self.phase = Phase::Uninitialized;
    }

    /// Whether the runtime is up with live handles.
    pub fn is_running(&self) -> (r: bool)
        ensures
            r == (self.phase == Phase::Running && self.refcount > 0),
    {
        match self.phase {
            Phase::Running => self.refcount > 0,
            _ => false,
        }
    }
}

/// Acquiring a handle on a running runtime and releasing it again restores the
/// state, and the release is not the last.
pub proof fn lemma_acquire_release_restores(s: RuntimeState)
    requires
        runtime_wf(s),
        s.phase == Phase::Running,
        s.refcount < usize::MAX,
    ensures
        acquire_next(s).1 == AcquireStep::Acquired,
        release_next(acquire_next(s).0) == (s, false),
{
}

/// A full cycle from a fresh runtime: the first acquisition initializes; after
/// a successful initialize the runtime runs with one handle; releasing it is the
/// last release; and after destroy the runtime is fresh again, so it can be
/// initialized anew.
pub proof fn lemma_reinitialize_after_teardown()
    ensures
        acquire_next(destroyed()).1 == AcquireStep::Initialize,
        initialized(true).phase == Phase::Running && initialized(true).refcount == 1,
        release_next(initialized(true)).1,
        release_next(initialized(true)).0.phase == Phase::Destroying,
        acquire_next(destroyed()) == acquire_next(
            RuntimeState { phase: Phase::Uninitialized, refcount: 0 },
        ),
{
}

/// A failed initialization can be retried: the next acquisition claims the
/// initialization again.
pub proof fn lemma_retry_after_failure()
    ensures
        acquire_next(initialized(false)).1 == AcquireStep::Initialize,
        runtime_wf(initialized(false)),
{
}

/// Every state a transition produces is well formed, apart from the two
/// in-progress phases, which hold no handles.
pub proof fn lemma_transitions_keep_wf(s: RuntimeState, succeeded: bool)
    requires
        runtime_wf(s),
    ensures
        runtime_wf(initialized(succeeded)),
        runtime_wf(destroyed()),
        s.refcount < usize::MAX ==> (runtime_wf(acquire_next(s).0) || acquire_next(s).0.refcount == 0),
        s.phase == Phase::Running ==> (runtime_wf(release_next(s).0) || release_next(s).0.refcount == 0),
{
}

} // verus!
