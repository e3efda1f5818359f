//! Per-window timers: a deadline-ordered queue polled cooperatively by the
//! event loop.
//!
//! Deadlines are absolute instants in ticks.  The queue keeps its entries
//! sorted earliest-deadline-first; an entry with a deadline equal to ones
//! already queued goes after them, so ties are broken by insertion order,
//! deterministically.

use vstd::prelude::*;

verus! {

/// A token identifying one requested timer to the embedding application.
#[derive(Clone, Copy, Debug, PartialEq, Eq, Structural)]
pub struct TimerToken(pub u64);

impl TimerToken {
    /// The token handed out when the target window is already gone; never
    /// allocated for a live timer.
    pub fn invalid() -> (r: TimerToken)
        ensures
            r == (TimerToken(0)),
    {
        TimerToken(0)
    }
}

/// One pending timer: an absolute deadline and the token handed to the
/// requester.
#[derive(Clone, Copy, Debug, PartialEq, Eq, Structural)]
pub struct TimerEntry {
    pub deadline: u64,
    pub token: TimerToken,
}

/// Entries ordered by deadline, earliest first.
pub open spec fn deadline_sorted(s: Seq<TimerEntry>) -> bool {
    forall|i: int, j: int| 0 <= i <= j < s.len() ==> s[i].deadline <= s[j].deadline
}

/// Where a new entry with `deadline` goes: after every entry whose deadline
/// is not later, so equal deadlines keep their insertion order.
pub open spec fn insertion_point(s: Seq<TimerEntry>, deadline: u64) -> int
    decreases s.len(),
{
    if s.len() == 0 {
        0
    } else if s[0].deadline <= deadline {
        1 + insertion_point(s.skip(1), deadline)
    } else {
        0
    }
}

/// For a deadline-sorted sequence, the insertion point splits it into the
/// entries due no later than `deadline` and those due strictly later.
pub proof fn lemma_insertion_point(s: Seq<TimerEntry>, deadline: u64)
    requires
        deadline_sorted(s),
    ensures
        0 <= insertion_point(s, deadline) <= s.len(),
        forall|k: int|
            0 <= k < insertion_point(s, deadline) ==> s[k].deadline <= deadline,
        forall|k: int|
            insertion_point(s, deadline) <= k < s.len() ==> s[k].deadline > deadline,
    decreases s.len(),
{
    if s.len() > 0 && s[0].deadline <= deadline {
        let rest = s.skip(1);
        assert(deadline_sorted(rest)) by {
            assert forall|i: int, j: int| 0 <= i <= j < rest.len() implies rest[i].deadline
                <= rest[j].deadline by {
                assert(rest[i] == s[i + 1]);
                assert(rest[j] == s[j + 1]);
            }
        }
        lemma_insertion_point(rest, deadline);
        assert forall|k: int| 0 <= k < insertion_point(s, deadline) implies s[k].deadline
            <= deadline by {
            if k > 0 {
                assert(rest[k - 1] == s[k]);
            }
        }
        assert forall|k: int| insertion_point(s, deadline) <= k < s.len() implies s[k].deadline
            > deadline by {
            assert(rest[k - 1] == s[k]);
        }
    }
}

/// The timer queue of one window.  No two windows share a queue.
#[derive(Debug)]
pub struct TimerQueue {
    entries: Vec<TimerEntry>,
    next_token: u64,
}

impl View for TimerQueue {
    type V = Seq<TimerEntry>;

    closed spec fn view(&self) -> Seq<TimerEntry> {
        self.entries@
    }
}

impl TimerQueue {
    /// The token the next scheduled timer will receive.
    pub closed spec fn spec_next_token(self) -> u64 {
        self.next_token
    }

    /// Entries are deadline-sorted and tokens start above the invalid one.
    pub open spec fn wf(self) -> bool {
        deadline_sorted(self@) && self.spec_next_token() >= 1
    }

    pub fn new() -> (r: TimerQueue)
        ensures
            r@ == Seq::<TimerEntry>::empty(),
            r.spec_next_token() == 1,
            r.wf(),
    {
        TimerQueue { entries: Vec::new(), next_token: 1 }
    }

    pub fn len(&self) -> (r: usize)
        ensures
            r == self@.len(),
    {
        self.entries.len()
    }

    /// Allocate a token and queue a timer for `deadline`.  The entry goes
    /// after every entry due no later, so the queue stays sorted and equal
    /// deadlines fire in request order.  Token numbers increase until the
    /// counter would overflow, so they are never reused.
    pub fn schedule(&mut self, deadline: u64) -> (token: TimerToken)
        requires
            old(self).wf(),
        ensures
            final(self).wf(),
            token == (TimerToken(old(self).spec_next_token())),
            token != (TimerToken(0u64)),
            final(self).spec_next_token() == if old(self).spec_next_token() < u64::MAX {
                (old(self).spec_next_token() + 1) as u64
            } else {
                u64::MAX
            },
            final(self)@ == old(self)@.insert(
                insertion_point(old(self)@, deadline),
                (TimerEntry { deadline, token }),
            ),
    {
        let token = TimerToken(self.next_token);
        if self.next_token < u64::MAX {
            self.next_token = self.next_token + 1;
        }
        let entry = TimerEntry { deadline, token };
        proof {
            lemma_insertion_point(self.entries@, deadline);
        }
        let ghost ip = insertion_point(self.entries@, deadline);
        let mut i: usize = 0;
        while i < self.entries.len() && self.entries[i].deadline <= deadline
            invariant
                0 <= i <= self.entries@.len(),
                forall|k: int| 0 <= k < i ==> self.entries@[k].deadline <= deadline,
                deadline_sorted(self.entries@),
                ip == insertion_point(self.entries@, deadline),
                self.entries@ == old(self)@,
            decreases self.entries@.len() - i,
        {
            i = i + 1;
        }
        proof {
            lemma_insertion_point(self.entries@, deadline);
            if i < ip {
                assert(self.entries@[i as int].deadline <= deadline);
            }
            if ip < i {
                assert(self.entries@[ip].deadline > deadline);
            }
            assert(i == ip);
        }
        self.entries.insert(i, entry);
        proof {
            old(self)@.insert_ensures(ip, entry);
            assert forall|p: int, q: int|
                0 <= p <= q < self.entries@.len() implies self.entries@[p].deadline
                <= self.entries@[q].deadline by {
                lemma_insertion_point(old(self)@, deadline);
                if p < ip {
                    assert(self.entries@[p] == old(self)@[p]);
                }
                if p > ip {
                    assert(self.entries@[p] == old(self)@[p - 1]);
                }
                if q < ip {
                    assert(self.entries@[q] == old(self)@[q]);
                }
                if q > ip {
                    assert(self.entries@[q] == old(self)@[q - 1]);
                }
            }
        }
        token
    }

    /// The deadline the event loop must poll next: the earliest queued.
    pub fn next_deadline(&self) -> (r: Option<u64>)
        requires
            self.wf(),
        ensures
            match r {
                Option::Some(d) => self@.len() > 0 && d == self@[0].deadline && forall|k: int|
                    0 <= k < self@.len() ==> d <= self@[k].deadline,
                Option::None => self@.len() == 0,
            },
    {
        if self.entries.len() > 0 {
            Some(self.entries[0].deadline)
        } else {
            None
        }
    }

    /// Pop the earliest timer if its deadline has passed.  Delivery is
    /// cooperative: the event loop polls once per iteration.
    pub fn pop_due(&mut self, now: u64) -> (r: Option<TimerEntry>)
        requires
            old(self).wf(),
        ensures
            final(self).wf(),
            final(self).spec_next_token() == old(self).spec_next_token(),
            match r {
                Option::Some(e) => old(self)@.len() > 0 && e == old(self)@[0]
                    && e.deadline <= now && final(self)@ == old(self)@.skip(1),
                Option::None => final(self)@ == old(self)@ && (old(self)@.len() == 0
                    || old(self)@[0].deadline > now),
            },
    {
        if self.entries.len() > 0 {
            let first = self.entries[0];
            if first.deadline <= now {
                self.entries.remove(0);
                proof {
                    assert(self.entries@ =~= old(self)@.skip(1));
                    assert forall|i: int, j: int|
                        0 <= i <= j < self.entries@.len() implies self.entries@[i].deadline
                        <= self.entries@[j].deadline by {
                        assert(self.entries@[i] == old(self)@[i + 1]);
                        assert(self.entries@[j] == old(self)@[j + 1]);
                    }
                }
                return Some(first);
            }
        }
        None
    }
}

/// Law: a timer requested immediately after another, with a strictly
/// earlier deadline, is queued in front of it, so it is poll-ready first;
/// with an equal deadline it is queued behind it, so ties fire in request
/// order.
pub proof fn lemma_earlier_deadline_polls_first(e1: TimerEntry, e2: TimerEntry)
    ensures
        e2.deadline < e1.deadline ==> seq![e1].insert(
            insertion_point(seq![e1], e2.deadline),
            e2,
        ) =~= seq![e2, e1],
        e2.deadline >= e1.deadline ==> seq![e1].insert(
            insertion_point(seq![e1], e2.deadline),
            e2,
        ) =~= seq![e1, e2],
{
    let s = seq![e1];
    lemma_insertion_point(s, e2.deadline);
    let ip = insertion_point(s, e2.deadline);
    if e2.deadline < e1.deadline {
        if ip == 1 {
            assert(s[0].deadline <= e2.deadline);
        }
        assert(ip == 0);
    } else {
        if ip == 0 {
            assert(s[0].deadline > e2.deadline);
        }
        assert(ip == 1);
    }
}

} // verus!
