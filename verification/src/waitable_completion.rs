//! A completion flag for asynchronous operations, and the rule a waiter follows.
//!
//! The flag is a plain value here; a thread-safe holder wraps it in a lock and a
//! condition variable and asks [`wait_step`] what to do each time it wakes.

use vstd::prelude::*;
use vstd::string::StringExecFns;

verus! {

/// Whether an asynchronous operation has completed.
#[derive(Debug)]
pub struct WaitableCompletion {
    completed: bool,
}

/// What a waiter does next.
#[derive(Debug, Clone, Copy, PartialEq, Eq, Structural)]
pub enum WaitStep {
    /// The operation has completed.
    Complete,
    /// Wait for a signal for at most this long (nanoseconds).
    Wait(u128),
    /// The timeout has passed.
    TimedOut,
}

/// Each time a waiter wakes, with `elapsed` of `timeout` nanoseconds used: done
/// once completed; otherwise time out when nothing is left, else wait for what
/// is left.
pub fn wait_step(completed: bool, elapsed: u128, timeout: u128) -> (r: WaitStep)
    ensures
        completed ==> r == WaitStep::Complete,
        !completed && elapsed >= timeout ==> r == WaitStep::TimedOut,
        !completed && elapsed < timeout ==> r == WaitStep::Wait((timeout - elapsed) as u128),
{
    if completed {
        WaitStep::Complete
    } else if elapsed >= timeout {
        WaitStep::TimedOut
    } else {
        WaitStep::Wait(timeout - elapsed)
    }
}

/// A wait never outlasts the timeout: what a waiter waits for, added to what has
/// elapsed, is the timeout.
pub proof fn lemma_wait_within_timeout(completed: bool, elapsed: u128, timeout: u128, d: u128)
    requires
        !completed,
        elapsed < timeout,
        d == timeout - elapsed,
    ensures
        elapsed + d == timeout,
        d > 0,
{
}

/// `std::time::Duration`'s `Debug` text of `secs` seconds and `subsec_nanos`
/// nanoseconds (such as `10ms` or `1.5s`).
pub uninterp spec fn duration_debug(secs: u64, subsec_nanos: u32) -> Seq<char>;

/// `format!("{:?}", Duration::new(secs, subsec_nanos))`. Claimed: the text is the
/// named `Debug` output of that duration. `Duration::new` panics only when the
/// nanoseconds carry past `u64::MAX` seconds, which the bound rules out.
#[verifier::external_body]
fn duration_debug_text(secs: u64, subsec_nanos: u32) -> (r: String)
    requires
        subsec_nanos < 1_000_000_000,
    ensures
        r@ == duration_debug(secs, subsec_nanos),
{
    format!("{:?}", std::time::Duration::new(secs, subsec_nanos))
}

/// Whole seconds of a timeout, saturated at `u64::MAX`.
pub open spec fn timeout_secs(timeout_nanos: u128) -> u64 {
    if timeout_nanos / 1_000_000_000 > u64::MAX {
        u64::MAX
    } else {
        (timeout_nanos / 1_000_000_000) as u64
    }
}

/// Nanoseconds of a timeout past its whole seconds.
pub open spec fn timeout_subsec(timeout_nanos: u128) -> u32 {
    (timeout_nanos % 1_000_000_000) as u32
}

/// The message of a wait that timed out after `timeout_nanos`.
pub open spec fn timeout_text(timeout_nanos: u128) -> Seq<char> {
    "Async operation did not complete within "@ + duration_debug(
        timeout_secs(timeout_nanos),
        timeout_subsec(timeout_nanos),
    )
}

impl WaitableCompletion {
    /// Whether the operation has completed.
    pub closed spec fn spec_completed(self) -> bool {
        self.completed
    }

    /// A flag that is not yet set.
    pub fn new() -> (r: WaitableCompletion)
        ensures
            !r.spec_completed(),
    {
        WaitableCompletion { completed: false }
    }

    /// A flag that is already set, for a sender with nothing pending.
    pub fn new_completed() -> (r: WaitableCompletion)
        ensures
            r.spec_completed(),
    {
        WaitableCompletion { completed: true }
    }

    /// Marks the operation complete; signalling again changes nothing.
    pub fn signal(&mut self)
        ensures
            final(self).spec_completed(),
    {
        self.completed = true;
    }

    /// Whether the operation has completed.
    pub fn is_complete(&self) -> (r: bool)
        ensures
            r == self.spec_completed(),
    {
        self.completed
    }

    /// Clears the flag before a new operation.
    pub fn reset(&mut self)
        ensures
            !final(self).spec_completed(),
    {
        self.completed = false;
    }

    /// Waits for completion for `timeout_nanos`. The flag cannot change while it
    /// is borrowed here, so this is the outcome of the wait: success if it is set,
    /// else a timeout whose message says the operation did not complete and names
    /// the timeout.
    pub fn wait_timeout(&self, timeout_nanos: u128) -> (r: Result<(), String>)
        ensures
            r is Ok <==> self.spec_completed(),
            r matches Err(m) ==> m@ == timeout_text(timeout_nanos),
    {
        match wait_step(self.completed, 0, timeout_nanos) {
            WaitStep::Complete => Ok(()),
            _ => {
                let secs_total = timeout_nanos / 1_000_000_000;
                let secs: u64 = if secs_total > u64::MAX as u128 {
                    u64::MAX
                } else {
                    secs_total as u64
                };
                let subsec = (timeout_nanos % 1_000_000_000) as u32;
                let mut message = String::from_str("Async operation did not complete within ");
                let shown = duration_debug_text(secs, subsec);
                message.append(shown.as_str());
                Err(message)
            },
        }
    }
}

impl Clone for WaitableCompletion {
    /// An independent flag with the same state.
    fn clone(&self) -> (r: WaitableCompletion)
        ensures
            r.spec_completed() == self.spec_completed(),
    {
        WaitableCompletion { completed: self.completed }
    }
}

impl Default for WaitableCompletion {
    fn default() -> (r: WaitableCompletion)
        ensures
            !r.spec_completed(),
    {
        WaitableCompletion::new()
    }
}

} // verus!
