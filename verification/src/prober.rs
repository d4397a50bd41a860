//! The port probe budget: a sandbox is ready when one TCP connect
//! succeeds; the prober allows the first check and ten thousand retries,
//! a millisecond apart, before giving up. Connecting itself happens
//! outside the library; these functions decide over the outcomes.

use vstd::prelude::*;

verus! {

/// How many retries follow the first check before the prober gives up.
pub const MAX_RETRIES: u32 = 10000;

/// What the prober does after one connect attempt.
pub enum ProbeStep {
    /// The connect succeeded: the port is open.
    Open,
    /// The connect failed and budget remains: sleep a millisecond, retry.
    Retry,
    /// The connect failed and the budget is spent.
    Exhausted,
}

/// The prober's state: how many attempts have failed so far.
pub struct PortProber {
    pub retries: u32,
}

impl PortProber {
    /// A prober that has not attempted anything.
    pub fn new() -> (p: Self)
        ensures
            p.retries == 0,
    {
        PortProber { retries: 0 }
    }

    /// Accounts one connect outcome: success opens, a failure spends one
    /// retry and exhausts the prober once more than `MAX_RETRIES` attempts
    /// have failed.
    pub fn step(&mut self, connected: bool) -> (r: ProbeStep)
        requires
            old(self).retries <= MAX_RETRIES,
        ensures
            connected ==> r is Open && final(self).retries == old(self).retries,
            !connected ==> final(self).retries == old(self).retries + 1 && (r is Exhausted <==> old(
                self,
            ).retries + 1 > MAX_RETRIES) && (r is Retry <==> old(self).retries + 1 <= MAX_RETRIES),
    {
        if connected {
            ProbeStep::Open
        } else {
            self.retries = self.retries + 1;
            if self.retries > MAX_RETRIES {
                ProbeStep::Exhausted
            } else {
                ProbeStep::Retry
            }
        }
    }
}

/// The prober reports the port open exactly when some connect among the
/// first `MAX_RETRIES + 1` succeeds.
pub open spec fn probe_succeeds(outcomes: Seq<bool>) -> bool {
    exists|i: int| 0 <= i <= MAX_RETRIES && i < outcomes.len() && outcomes[i]
}

/// Drives the prober over a record of connect outcomes, one per attempt.
/// Returns whether the port opened, and how many connects were attempted:
/// on success the number of the first successful attempt, otherwise
/// exactly `MAX_RETRIES + 1`.
pub fn run_probes(outcomes: &Vec<bool>) -> (r: (bool, u32))
    requires
        outcomes@.len() > MAX_RETRIES,
    ensures
        r.0 == probe_succeeds(outcomes@),
        !r.0 ==> r.1 == MAX_RETRIES + 1,
        r.0 ==> 1 <= r.1 <= MAX_RETRIES + 1 && outcomes@[r.1 - 1] && forall|j: int|
            0 <= j < r.1 - 1 ==> !outcomes@[j],
{
    let mut p = PortProber::new();
    let mut i: usize = 0;
    while i < 10001
        invariant
            outcomes@.len() > MAX_RETRIES,
            0 <= i <= 10001,
            p.retries == i,
            forall|j: int| 0 <= j < i ==> !outcomes@[j],
        decreases 10001 - i,
    {
        let connected = outcomes[i];
        match p.step(connected) {
            ProbeStep::Open => {
                return (true, (i + 1) as u32);
            },
            _ => {},
        }
        i = i + 1;
    }
    (false, 10001)
}

} // verus!
