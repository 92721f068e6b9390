//! A deterministic timer source for testing.
//!
//! It stands in for the platform timer: registering a timer returns a token
//! synchronously, and advancing the virtual clock fires every timer whose
//! deadline has been reached, in registration order.

use vstd::prelude::*;

use crate::command::TimerToken;

verus! {

/// A virtual clock with a queue of pending timers.
#[derive(Clone, Debug)]
pub struct MockTimerQueue {
    /// The virtual time, in milliseconds since the queue was created.
    pub current_time: u64,
    /// The token the next registered timer will receive.
    pub next_token: u64,
    /// Pending timers as `(deadline, token)`, in registration order.
    pub pending: Vec<(u64, u64)>,
}

/// The tokens of the timers in `s` that are due at time `t`, in order.
pub open spec fn fired_at(s: Seq<(u64, u64)>, t: u64) -> Seq<TimerToken>
    decreases s.len(),
{
    if s.len() == 0 {
        Seq::empty()
    } else {
        let rest = fired_at(s.drop_last(), t);
        if s.last().0 <= t {
            rest.push(TimerToken(s.last().1))
        } else {
            rest
        }
    }
}

/// The timers of `s` not yet due at time `t`, in order.
pub open spec fn kept_after(s: Seq<(u64, u64)>, t: u64) -> Seq<(u64, u64)>
    decreases s.len(),
{
    if s.len() == 0 {
        Seq::empty()
    } else {
        let rest = kept_after(s.drop_last(), t);
        if s.last().0 <= t {
            rest
        } else {
            rest.push(s.last())
        }
    }
}

/// Every pending token was issued, so it is below the next token to issue.
pub open spec fn mock_wf(q: MockTimerQueue) -> bool {
    forall|i: int| 0 <= i < q.pending@.len() ==> (#[trigger] q.pending@[i]).1 < q.next_token
}

/// What registering a timer of length `d` at `q0` leaves behind: the token
/// is the next unissued one, and one timer due at `q0.current_time + d`
/// joins the queue.
pub open spec fn mock_add_post(
    q0: MockTimerQueue,
    d: u64,
    token: TimerToken,
    q1: MockTimerQueue,
) -> bool {
    &&& token.0 == q0.next_token
    &&& q1.next_token == q0.next_token + 1
    &&& q1.current_time == q0.current_time
    &&& q1.pending@ == q0.pending@.push(((q0.current_time + d) as u64, token.0))
}

/// Timers not yet due keep their bound under the issue counter.
proof fn lemma_kept_after_bound(s: Seq<(u64, u64)>, t: u64, b: u64)
    requires
        forall|i: int| 0 <= i < s.len() ==> (#[trigger] s[i]).1 < b,
    ensures
        forall|i: int| 0 <= i < kept_after(s, t).len() ==> (#[trigger] kept_after(s, t)[i]).1 < b,
    decreases s.len(),
{
    if s.len() > 0 {
        assert forall|i: int| 0 <= i < s.drop_last().len() implies (#[trigger] s.drop_last()[i]).1
            < b by {
            assert(s.drop_last()[i] == s[i]);
        }
        lemma_kept_after_bound(s.drop_last(), t, b);
        let k = kept_after(s, t);
        let kr = kept_after(s.drop_last(), t);
        assert forall|i: int| 0 <= i < k.len() implies (#[trigger] k[i]).1 < b by {
            if s.last().0 <= t {
                assert(k == kr);
            } else {
                assert(k == kr.push(s.last()));
                if i == kr.len() {
                    assert(k[i] == s.last());
                    assert(s.last() == s[s.len() - 1]);
                } else {
                    assert(k[i] == kr[i]);
                }
            }
        }
    }
}

impl MockTimerQueue {
    /// An empty queue at virtual time zero. Token numbering starts at one,
    /// leaving zero free to mean "no token".
    pub fn new() -> (q: MockTimerQueue)
        ensures
            q.current_time == 0,
            q.next_token == 1,
            q.pending@.len() == 0,
            mock_wf(q),
    {
        MockTimerQueue { current_time: 0, next_token: 1, pending: Vec::new() }
    }

    /// Registers a timer due `duration_ms` from now and returns its token,
    /// distinct from the token of every timer registered before.
    pub fn add_timer(&mut self, duration_ms: u64) -> (token: TimerToken)
        requires
            mock_wf(*old(self)),
            old(self).current_time + duration_ms <= u64::MAX,
            old(self).next_token < u64::MAX,
        ensures
            mock_wf(*final(self)),
            mock_add_post(*old(self), duration_ms, token, *final(self)),
    {
        let token = self.next_token;
        let deadline = self.current_time + duration_ms;
        self.pending.push((deadline, token));
        self.next_token = self.next_token + 1;
        TimerToken(token)
    }

    /// Moves the virtual clock forward by `duration_ms` and fires every
    /// timer now due: the fired tokens are returned in registration order
    /// and their timers leave the queue; all others stay.
    pub fn advance(&mut self, duration_ms: u64) -> (fired: Vec<TimerToken>)
        requires
            mock_wf(*old(self)),
            old(self).current_time + duration_ms <= u64::MAX,
        ensures
            mock_wf(*final(self)),
            final(self).current_time == old(self).current_time + duration_ms,
            final(self).next_token == old(self).next_token,
            fired@ == fired_at(old(self).pending@, final(self).current_time),
            final(self).pending@ == kept_after(old(self).pending@, final(self).current_time),
    {
        let now = self.current_time + duration_ms;
        self.current_time = now;

        let ghost pend = self.pending@;
        let mut fired: Vec<TimerToken> = Vec::new();
        let mut kept: Vec<(u64, u64)> = Vec::new();
        let n = self.pending.len();
        let mut i: usize = 0;
        while i < n
            invariant
                n == pend.len(),
                self.pending@ == pend,
                0 <= i <= n,
                fired@ == fired_at(pend.take(i as int), now),
                kept@ == kept_after(pend.take(i as int), now),
            decreases n - i,
        {
            let entry = self.pending[i];
            proof {
                assert(pend.take(i + 1 as int).drop_last() =~= pend.take(i as int));
            }
            if entry.0 <= now {
                fired.push(TimerToken(entry.1));
            } else {
                kept.push(entry);
            }
            i = i + 1;
        }
        proof {
            assert(pend.take(n as int) =~= pend);
            lemma_kept_after_bound(pend, now, self.next_token);
        }
        self.pending = kept;
        fired
    }
}

} // verus!
