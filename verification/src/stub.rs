//! A deterministic stand-in for the provider, used to state and prove
//! what the protocol trusts the provider for: an operation that has
//! reached a terminal state stays terminal.

use vstd::prelude::*;

use crate::relay::{poll_reply_matches, PollReply, ProviderVideoStatus};

verus! {

/// One outstanding operation as a stub provider holds it: how many
/// more polls until it completes, and the sample locators it will
/// report once done (none, some, or an empty block).
pub struct StubProvider {
    pub remaining: u64,
    pub samples: Option<Vec<String>>,
}

/// Whether the stub operation has reached its terminal state.
pub open spec fn spec_stub_done(p: StubProvider) -> bool {
    p.remaining == 0
}

/// One step of provider time: pending work shrinks, a terminal state
/// stays exactly as it is.
pub open spec fn spec_stub_tick(p: StubProvider) -> StubProvider {
    if p.remaining > 0 {
        StubProvider { remaining: (p.remaining - 1) as u64, samples: p.samples }
    } else {
        p
    }
}

/// `n` steps of provider time.
pub open spec fn spec_stub_tick_n(p: StubProvider, n: nat) -> StubProvider
    decreases n,
{
    if n == 0 {
        p
    } else {
        spec_stub_tick_n(spec_stub_tick(p), (n - 1) as nat)
    }
}

/// How the stub renders itself as a provider status: the completion
/// flag says exactly whether it is done, and the sample block is
/// reported as stored.
pub open spec fn stub_status_matches(p: StubProvider, s: ProviderVideoStatus) -> bool {
    &&& s.done == Some(p.remaining == 0)
    &&& match (p.samples, s.samples) {
        (None, None) => true,
        (Some(a), Some(b)) => a@.map_values(|x: String| x@) == b@.map_values(|x: String| x@),
        _ => false,
    }
}

impl StubProvider {
    /// Lets one step of provider time pass.
    pub fn tick(&mut self)
        ensures
            *final(self) == spec_stub_tick(*old(self)),
    {
        if self.remaining > 0 {
            self.remaining = self.remaining - 1;
        }
    }

    /// Reads the operation's current status, as a poll of the provider
    /// would.
    pub fn status(&self) -> (r: ProviderVideoStatus)
        ensures
            stub_status_matches(*self, r),
    {
        let samples = match &self.samples {
            Some(v) => {
                let mut copy: Vec<String> = Vec::new();
                let n = v.len();
                let mut i: usize = 0;
                while i < n
                    invariant
                        n == v@.len(),
                        i <= n,
                        copy@.len() == i,
                        forall|j: int| 0 <= j < i ==> copy@[j]@ == v@[j]@,
                    decreases n - i,
                {
                    copy.push(v[i].clone());
                    i = i + 1;
                }
                proof {
                    assert(copy@.map_values(|x: String| x@) =~= v@.map_values(|x: String| x@));
                }
                Some(copy)
            },
            None => None,
        };
        ProviderVideoStatus { done: Some(self.remaining == 0), samples }
    }
}

/// A terminal state survives any amount of provider time.
pub proof fn lemma_stub_done_stays(p: StubProvider, n: nat)
    ensures
        spec_stub_done(p) ==> spec_stub_done(spec_stub_tick_n(p, n)),
    decreases n,
{
    if n > 0 {
        lemma_stub_done_stays(spec_stub_tick(p), (n - 1) as nat);
    }
}

/// Terminal is sticky through the relay: once a poll of the stub
/// provider reads as done — a ready or failed reply, anything but
/// pending — every poll after any further passage of provider time
/// reads as done again.
pub proof fn lemma_terminal_reply_sticky(
    p: StubProvider,
    status_now: ProviderVideoStatus,
    reply_now: PollReply,
    n: nat,
    status_later: ProviderVideoStatus,
    reply_later: PollReply,
)
    requires
        stub_status_matches(p, status_now),
        poll_reply_matches(status_now, reply_now),
        !(reply_now is Pending),
        stub_status_matches(spec_stub_tick_n(p, n), status_later),
        poll_reply_matches(status_later, reply_later),
    ensures
        !(reply_later is Pending),
{
    assert(status_now.done == Some(true));
    assert(spec_stub_done(p));
    lemma_stub_done_stays(p, n);
    assert(status_later.done == Some(true));
}

} // verus!
