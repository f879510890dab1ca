use std::collections::HashMap;
use vstd::prelude::*;

use crate::outside::{draw_in_range, fresh_uuid};

verus! {

broadcast use vstd::std_specs::hash::group_hash_axioms;

/// Number of milliseconds in one second.
pub const MILLIS_PER_SEC: u64 = 1000;

/// Shortest duration, in seconds, that a submitted job may take.
pub const MIN_DURATION_SECS: u64 = 1;

/// Longest duration, in seconds, that a submitted job may take.
pub const MAX_DURATION_SECS: u64 = 20;

/// Wait hint, in seconds, given for every poll of a job that is still pending.
pub const PENDING_RETRY_SECS: u64 = 1;

/// One accepted job. Times are milliseconds of a monotonic clock.
#[derive(Clone, Copy, Debug, PartialEq, Eq, Structural)]
pub struct WorkItem {
    pub work_id: u128,
    pub duration_secs: u64,
    pub completes_at_ms: u64,
    pub poll_count: u64,
}

/// What a submission hands back to the submitter.
#[derive(Clone, Copy, Debug, PartialEq, Eq, Structural)]
pub struct Submitted {
    pub work_id: u128,
    pub retry_after_secs: u64,
}

#[derive(Clone, Copy, Debug, PartialEq, Eq, Structural)]
pub enum SubmitError {
    /// The identifier is already held by an earlier job.
    DuplicateId,
}

/// The three outcomes of a poll.
#[derive(Clone, Copy, Debug, PartialEq, Eq, Structural)]
pub enum PollOutcome {
    NotFound,
    Pending { retry_after_secs: u64 },
    Done { item: WorkItem },
}

/// The instant at which a job of `duration_secs` seconds submitted at `now_ms`
/// is complete; it stays at the clock's last value where the sum would not fit.
pub open spec fn completion_time(now_ms: u64, duration_secs: u64) -> u64 {
    if now_ms + duration_secs * 1000 <= u64::MAX {
        (now_ms + duration_secs * 1000) as u64
    } else {
        u64::MAX
    }
}

/// A valid job duration.
pub open spec fn valid_duration(duration_secs: u64) -> bool {
    MIN_DURATION_SECS <= duration_secs <= MAX_DURATION_SECS
}

/// The record of a job just submitted.
pub open spec fn fresh_item(id: u128, duration_secs: u64, now_ms: u64) -> WorkItem {
    WorkItem {
        work_id: id,
        duration_secs,
        completes_at_ms: completion_time(now_ms, duration_secs),
        poll_count: 0,
    }
}

/// A poll counter after one more pending poll (it stops at its largest value).
pub open spec fn bumped(count: u64) -> u64 {
    if count < u64::MAX {
        (count + 1) as u64
    } else {
        count
    }
}

/// Whether job `id` is still pending at `now_ms`.
pub open spec fn is_pending(m: Map<u128, WorkItem>, id: u128, now_ms: u64) -> bool {
    m.contains_key(id) && now_ms < m[id].completes_at_ms
}

/// What a poll of `id` at `now_ms` answers, given the registry's contents.
pub open spec fn poll_outcome(m: Map<u128, WorkItem>, id: u128, now_ms: u64) -> PollOutcome {
    if !m.contains_key(id) {
        PollOutcome::NotFound
    } else if now_ms < m[id].completes_at_ms {
        PollOutcome::Pending { retry_after_secs: PENDING_RETRY_SECS }
    } else {
        PollOutcome::Done { item: m[id] }
    }
}

/// The registry's contents after a poll of `id` at `now_ms`: only a pending
/// job changes, and only its poll counter.
pub open spec fn poll_effect(m: Map<u128, WorkItem>, id: u128, now_ms: u64) -> Map<u128, WorkItem> {
    if is_pending(m, id, now_ms) {
        m.insert(id, WorkItem { poll_count: bumped(m[id].poll_count), ..m[id] })
    } else {
        m
    }
}

/// The registry's contents after polls of `id` at each time of `times`, in order.
pub open spec fn poll_all(m: Map<u128, WorkItem>, id: u128, times: Seq<u64>) -> Map<
    u128,
    WorkItem,
>
    decreases times.len(),
{
    if times.len() == 0 {
        m
    } else {
        poll_effect(poll_all(m, id, times.drop_last()), id, times.last())
    }
}

/// Holds every job ever submitted, by identifier.
pub struct WorkRegistry {
    works: HashMap<u128, WorkItem>,
}

impl View for WorkRegistry {
    type V = Map<u128, WorkItem>;

    closed spec fn view(&self) -> Map<u128, WorkItem> {
        self.works@
    }
}

/// Each job is filed under its own identifier and has a valid duration.
pub open spec fn well_formed_map(m: Map<u128, WorkItem>) -> bool {
    forall|k: u128| #[trigger]
        m.contains_key(k) ==> m[k].work_id == k && valid_duration(m[k].duration_secs)
}

impl WorkRegistry {
    pub open spec fn wf(&self) -> bool {
        well_formed_map(self@)
    }

    /// An empty registry.
    pub fn new() -> (r: WorkRegistry)
        ensures
            r.wf(),
            r@ == Map::<u128, WorkItem>::empty(),
    {
        WorkRegistry { works: HashMap::new() }
    }

    /// Number of jobs held.
    pub fn len(&self) -> (r: usize)
        ensures
            r == self@.len(),
    {
        self.works.len()
    }

    /// Files a new job under `id`, lasting `duration_secs` from `now_ms`, and
    /// answers with its identifier and a wait hint of half its duration.
    pub fn submit_with(&mut self, id: u128, duration_secs: u64, now_ms: u64) -> (r: Result<
        Submitted,
        SubmitError,
    >)
        requires
            old(self).wf(),
            valid_duration(duration_secs),
        ensures
            final(self).wf(),
            r is Ok <==> !old(self)@.contains_key(id),
            match r {
                Ok(s) => {
                    &&& s == (Submitted { work_id: id, retry_after_secs: duration_secs / 2 })
                    &&& final(self)@ == old(self)@.insert(id, fresh_item(id, duration_secs, now_ms))
                },
                Err(e) => e == SubmitError::DuplicateId && final(self)@ == old(self)@,
            },
    {
        if self.works.contains_key(&id) {
            return Err(SubmitError::DuplicateId);
        }
        let item = WorkItem {
            work_id: id,
            duration_secs,
            completes_at_ms: now_ms.saturating_add(duration_secs * MILLIS_PER_SEC),
            poll_count: 0,
        };
        self.works.insert(id, item);
        Ok(Submitted { work_id: id, retry_after_secs: duration_secs / 2 })
    }

    /// Files a new job with a random identifier and a random duration of one
    /// to twenty seconds. Fails only if the drawn identifier is already taken.
    pub fn submit(&mut self, now_ms: u64) -> (r: Result<Submitted, SubmitError>)
        requires
            old(self).wf(),
        ensures
            final(self).wf(),
            match r {
                Ok(s) => {
                    let d = final(self)@[s.work_id].duration_secs;
                    &&& !old(self)@.contains_key(s.work_id)
                    &&& valid_duration(d)
                    &&& s.retry_after_secs == d / 2
                    &&& final(self)@ == old(self)@.insert(
                        s.work_id,
                        fresh_item(s.work_id, d, now_ms),
                    )
                },
                Err(e) => {
                    &&& e == SubmitError::DuplicateId
                    &&& exists|k: u128| old(self)@.contains_key(k)
                    &&& final(self)@ == old(self)@
                },
            },
    {
        let id = fresh_uuid();
        let duration_secs = draw_in_range(MIN_DURATION_SECS, MAX_DURATION_SECS);
        let r = self.submit_with(id, duration_secs, now_ms);
        proof {
            if r.is_ok() {
                assert(final(self)@.contains_key(id));
            } else {
                assert(old(self)@.contains_key(id));
            }
        }
        r
    }

    /// Answers a poll of `id` at `now_ms`, counting it if the job is pending.
    pub fn poll(&mut self, id: u128, now_ms: u64) -> (r: PollOutcome)
        requires
            old(self).wf(),
        ensures
            final(self).wf(),
            r == poll_outcome(old(self)@, id, now_ms),
            final(self)@ == poll_effect(old(self)@, id, now_ms),
            !old(self)@.contains_key(id) ==> r == PollOutcome::NotFound,
            old(self)@.dom() == final(self)@.dom(),
    {
        let found = self.works.get(&id);
        match found {
            None => PollOutcome::NotFound,
            Some(w) => {
                let item = *w;
                if now_ms < item.completes_at_ms {
                    let count = if item.poll_count < u64::MAX {
                        item.poll_count + 1
                    } else {
                        item.poll_count
                    };
                    self.works.insert(id, WorkItem { poll_count: count, ..item });
                    proof {
                        assert(final(self)@.dom() =~= old(self)@.dom());
                    }
                    PollOutcome::Pending { retry_after_secs: PENDING_RETRY_SECS }
                } else {
                    PollOutcome::Done { item }
                }
            },
        }
    }
}

} // verus!
