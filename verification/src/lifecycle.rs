//! The lifecycle every sandbox variant shares: `New → Presetup → Started →
//! Killed → Cleaned`, with `kill` safe to repeat once started and
//! `cleanup` safe any time after `presetup`. The harness drives each
//! instance through this order and the rules here refuse anything else.

use vstd::prelude::*;

verus! {

/// Where an instance stands in its life.
#[derive(Clone, Copy, PartialEq, Eq, Structural, Debug)]
pub enum LifecycleState {
    New,
    Presetup,
    Started,
    Killed,
    Cleaned,
}

/// The four operations the harness may ask of an instance.
#[derive(Clone, Copy, PartialEq, Eq, Structural, Debug)]
pub enum LifecycleOp {
    Presetup,
    Start,
    Kill,
    Cleanup,
}

/// Which operation is in order in which state.
pub open spec fn step_allowed(s: LifecycleState, op: LifecycleOp) -> bool {
    match op {
        LifecycleOp::Presetup => s is New,
        LifecycleOp::Start => s is Presetup,
        LifecycleOp::Kill => s is Started || s is Killed,
        LifecycleOp::Cleanup => s is Presetup || s is Started || s is Killed || s is Cleaned,
    }
}

/// Where an allowed operation leaves the instance.
pub open spec fn step_state(op: LifecycleOp) -> LifecycleState {
    match op {
        LifecycleOp::Presetup => LifecycleState::Presetup,
        LifecycleOp::Start => LifecycleState::Started,
        LifecycleOp::Kill => LifecycleState::Killed,
        LifecycleOp::Cleanup => LifecycleState::Cleaned,
    }
}

/// States in which the instance still owns host resources: scratch files,
/// a child process, a tap device.
pub open spec fn holds_resources(s: LifecycleState) -> bool {
    s is Presetup || s is Started || s is Killed
}

/// An operation asked of an instance whose state does not admit it.
#[derive(Clone, Copy, PartialEq, Eq, Debug)]
pub struct OutOfOrder;

/// The lifecycle of one instance.
pub struct Lifecycle {
    pub state: LifecycleState,
}

impl Lifecycle {
    /// A just-constructed instance.
    pub fn new() -> (r: Self)
        ensures
            r.state is New,
    {
        Lifecycle { state: LifecycleState::New }
    }

    /// Records one operation: the state advances exactly when the order
    /// admits the operation, and stands otherwise.
    pub fn advance(&mut self, op: LifecycleOp) -> (r: Result<(), OutOfOrder>)
        ensures
            r is Ok <==> step_allowed(old(self).state, op),
            r is Ok ==> final(self).state == step_state(op),
            r is Err ==> final(self).state == old(self).state,
    {
        let allowed = match op {
            LifecycleOp::Presetup => matches!(self.state, LifecycleState::New),
            LifecycleOp::Start => matches!(self.state, LifecycleState::Presetup),
            LifecycleOp::Kill => matches!(
                self.state,
                LifecycleState::Started | LifecycleState::Killed
            ),
            LifecycleOp::Cleanup => !matches!(self.state, LifecycleState::New),
        };
        if allowed {
            self.state = match op {
                LifecycleOp::Presetup => LifecycleState::Presetup,
                LifecycleOp::Start => LifecycleState::Started,
                LifecycleOp::Kill => LifecycleState::Killed,
                LifecycleOp::Cleanup => LifecycleState::Cleaned,
            };
            Ok(())
        } else {
            Err(OutOfOrder)
        }
    }
}

/// The full `presetup, start, kill, cleanup` sequence is admitted from a
/// fresh instance, ends in `Cleaned`, and a cleaned instance owns no host
/// resources; `kill` and `cleanup` may be repeated there without effect
/// on that.
pub proof fn lemma_full_sequence_releases()
    ensures
        step_allowed(LifecycleState::New, LifecycleOp::Presetup),
        step_allowed(step_state(LifecycleOp::Presetup), LifecycleOp::Start),
        step_allowed(step_state(LifecycleOp::Start), LifecycleOp::Kill),
        step_allowed(step_state(LifecycleOp::Kill), LifecycleOp::Cleanup),
        step_state(LifecycleOp::Cleanup) is Cleaned,
        !holds_resources(step_state(LifecycleOp::Cleanup)),
        step_allowed(step_state(LifecycleOp::Kill), LifecycleOp::Kill),
        step_allowed(step_state(LifecycleOp::Cleanup), LifecycleOp::Cleanup),
{
}

} // verus!
