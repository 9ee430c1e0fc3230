//! The cohort supervisor: one session per endpoint, restarted as a
//! whole.
//!
//! The supervisor never runs sockets itself; the caller reports each
//! session's termination with its instant, and once every session of
//! the cohort has terminated, [`Supervisor::restart_at`] gives the one
//! instant at which the whole cohort respawns: the latest termination
//! plus the fixed delay — never the earliest.

use vstd::prelude::*;
use crate::session::{SessionOutcome, SessionOutcomeV};

verus! {

/// The fixed delay between a cohort's last termination and its
/// restart: 5 seconds.
pub const RESTART_DELAY_MS: u64 = 5000;

/// The static identity of one streaming endpoint.
pub struct EndpointDescriptor {
    pub url: String,
    pub label: String,
}

/// The largest recorded termination instant; zero when none is
/// recorded yet.
pub open spec fn max_end_time(ts: Seq<Option<u64>>) -> int
    decreases ts.len(),
{
    if ts.len() == 0 {
        0
    } else {
        let rest = max_end_time(ts.drop_first());
        let head = match ts[0] {
            Some(t) => t as int,
            None => 0,
        };
        if head >= rest {
            head
        } else {
            rest
        }
    }
}

/// One supervisor generation over a fixed, ordered set of endpoints.
pub struct Supervisor {
    pub descriptors: Vec<EndpointDescriptor>,
    /// Per endpoint: the termination instant and outcome, set once.
    pub ended: Vec<Option<(u64, SessionOutcome)>>,
}

pub open spec fn end_times(ended: Seq<Option<(u64, SessionOutcome)>>) -> Seq<Option<u64>> {
    ended.map_values(
        |o: Option<(u64, SessionOutcome)>|
            match o {
                Some(p) => Some(p.0),
                None => None,
            },
    )
}

impl Supervisor {
    /// Every session either still runs or ended at an instant that
    /// leaves room for the restart delay.
    pub open spec fn wf(self) -> bool {
        &&& self.ended@.len() == self.descriptors@.len()
        &&& forall|i: int|
            0 <= i < self.ended@.len() ==> ((#[trigger] self.ended@[i]) matches Some(p) ==> p.0
                + RESTART_DELAY_MS <= u64::MAX)
    }

    pub open spec fn all_terminated(self) -> bool {
        forall|i: int| 0 <= i < self.ended@.len() ==> (#[trigger] self.ended@[i]) is Some
    }

    /// A fresh cohort: no session has terminated.
    pub fn new(descriptors: Vec<EndpointDescriptor>) -> (s: Supervisor)
        ensures
            s.wf(),
            s.descriptors == descriptors,
            s.ended@.len() == descriptors@.len(),
            forall|i: int| 0 <= i < s.ended@.len() ==> (#[trigger] s.ended@[i]) is None,
    {
        let n = descriptors.len();
        let mut ended: Vec<Option<(u64, SessionOutcome)>> = Vec::new();
        let mut k: usize = 0;
        while k < n
            invariant
                k <= n,
                ended@.len() == k,
                forall|i: int| 0 <= i < k ==> (#[trigger] ended@[i]) is None,
            decreases n - k,
        {
            ended.push(None);
            k = k + 1;
        }
        Supervisor { descriptors, ended }
    }

    /// Session `i` terminated at instant `t` with this outcome.
    /// Recorded once; the cohort does not restart for it alone.
    pub fn note_terminated(&mut self, i: usize, t: u64, outcome: SessionOutcome)
        requires
            old(self).wf(),
            i < old(self).ended@.len(),
            old(self).ended@[i as int] is None,
            t + RESTART_DELAY_MS <= u64::MAX,
        ensures
            final(self).wf(),
            final(self).descriptors == old(self).descriptors,
            final(self).ended@.len() == old(self).ended@.len(),
            final(self).ended@[i as int] matches Some(p) && p.0 == t && p.1.model()
                == outcome.model(),
            forall|q: int|
                0 <= q < old(self).ended@.len() && q != i ==> final(self).ended@[q] == old(
                    self,
                ).ended@[q],
    {
        let ghost oldv = self.ended@;
        self.ended.set(i, Some((t, outcome)));
    }

    /// Whether every session of the cohort has terminated.
    pub fn cohort_done(&self) -> (r: bool)
        ensures
            r == self.all_terminated(),
    {
        let n = self.ended.len();
        let mut k: usize = 0;
        while k < n
            invariant
                k <= n,
                n == self.ended@.len(),
                forall|i: int| 0 <= i < k ==> (#[trigger] self.ended@[i]) is Some,
            decreases n - k,
        {
            if self.ended[k].is_none() {
                return false;
            }
            k = k + 1;
        }
        true
    }

    /// The instant of the next cohort-wide restart: the latest
    /// termination instant plus the fixed delay — not the earliest.
    pub fn restart_at(&self) -> (r: u64)
        requires
            self.wf(),
            self.all_terminated(),
        ensures
            r == max_end_time(end_times(self.ended@)) + RESTART_DELAY_MS,
    {
        let m = max_end_from(&self.ended, 0);
        proof {
            assert(end_times(self.ended@).skip(0) =~= end_times(self.ended@));
        }
        m + RESTART_DELAY_MS
    }
}

fn max_end_from(ended: &Vec<Option<(u64, SessionOutcome)>>, k: usize) -> (r: u64)
    requires
        k <= ended@.len(),
        forall|i: int|
            0 <= i < ended@.len() ==> ((#[trigger] ended@[i]) matches Some(p) ==> p.0
                + RESTART_DELAY_MS <= u64::MAX),
    ensures
        r == max_end_time(end_times(ended@).skip(k as int)),
        r + RESTART_DELAY_MS <= u64::MAX,
    decreases ended@.len() - k,
{
    let ghost ts = end_times(ended@);
    if k == ended.len() {
        proof {
            assert(ts.skip(k as int) =~= Seq::<Option<u64>>::empty());
        }
        0
    } else {
        let rest = max_end_from(ended, k + 1);
        let head: u64 = match &ended[k] {
            Some(p) => p.0,
            None => 0,
        };
        proof {
            assert(ts.skip(k as int)[0] == ts[k as int]);
            assert(ts.skip(k as int).drop_first() =~= ts.skip(k as int + 1));
        }
        if head >= rest {
            head
        } else {
            rest
        }
    }
}

/// The restart instant dominates every session's own termination
/// instant by at least the fixed delay: the cohort waits for its
/// slowest member, no session is restarted early.
pub proof fn lemma_restart_after_every_end(ts: Seq<Option<u64>>, i: int)
    requires
        0 <= i < ts.len(),
        ts[i] is Some,
    ensures
        max_end_time(ts) + RESTART_DELAY_MS >= ts[i].unwrap() + RESTART_DELAY_MS,
    decreases ts.len(),
{
    if i > 0 {
        lemma_restart_after_every_end(ts.drop_first(), i - 1);
        assert(ts.drop_first()[i - 1] == ts[i]);
    }
}

/// With every termination recorded, the cohort restarts exactly the
/// fixed delay after one of them — the latest, by the lemma above.
pub proof fn lemma_restart_tracks_a_termination(ts: Seq<Option<u64>>)
    requires
        ts.len() > 0,
        forall|i: int| 0 <= i < ts.len() ==> (#[trigger] ts[i]) is Some,
    ensures
        exists|i: int| 0 <= i < ts.len() && max_end_time(ts) == (#[trigger] ts[i]).unwrap(),
    decreases ts.len(),
{
    if ts.len() == 1 {
        assert(max_end_time(ts.drop_first()) == 0);
        assert(max_end_time(ts) == ts[0].unwrap());
    } else {
        lemma_restart_tracks_a_termination(ts.drop_first());
        let j = choose|j: int|
            0 <= j < ts.drop_first().len() && max_end_time(ts.drop_first()) == (#[trigger] ts.drop_first()[j]).unwrap();
        assert(ts.drop_first()[j] == ts[j + 1]);
        if max_end_time(ts) == ts[0].unwrap() {
        } else {
            assert(max_end_time(ts) == ts[j + 1].unwrap());
        }
    }
}

} // verus!
