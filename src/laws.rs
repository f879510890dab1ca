use vstd::prelude::*;

use crate::client::retry_hint;
use crate::surface::{NOT_FOUND, OK};
use crate::registry::{
    bumped, is_pending, poll_all, poll_effect, poll_outcome, PollOutcome, WorkItem,
    PENDING_RETRY_SECS,
};

verus! {

/// Every poll of a job before it completes answers `Pending` with a one-second
/// hint and adds one to its counter; the first poll at or after completion
/// answers `Done` with the number of pending polls, and leaves it unchanged.
pub proof fn lemma_pending_polls_counted(
    m: Map<u128, WorkItem>,
    id: u128,
    times: Seq<u64>,
    done_at: u64,
)
    requires
        m.contains_key(id),
        m[id].poll_count == 0,
        times.len() < u64::MAX,
        forall|i: int| 0 <= i < times.len() ==> #[trigger] times[i] < m[id].completes_at_ms,
        done_at >= m[id].completes_at_ms,
    ensures
        poll_all(m, id, times) == m.insert(
            id,
            WorkItem { poll_count: times.len() as u64, ..m[id] },
        ),
        forall|i: int|
            0 <= i < times.len() ==> {
                &&& poll_outcome(poll_all(m, id, times.take(i)), id, #[trigger] times[i])
                    == PollOutcome::Pending { retry_after_secs: PENDING_RETRY_SECS }
                &&& poll_all(m, id, times.take(i + 1))[id].poll_count == poll_all(
                    m,
                    id,
                    times.take(i),
                )[id].poll_count + 1
            },
        poll_outcome(poll_all(m, id, times), id, done_at) == (PollOutcome::Done {
            item: WorkItem { poll_count: times.len() as u64, ..m[id] },
        }),
        poll_effect(poll_all(m, id, times), id, done_at) == poll_all(m, id, times),
{
    lemma_prefix_counts(m, id, times);
    assert forall|i: int| 0 <= i < times.len() implies {
        &&& poll_outcome(poll_all(m, id, times.take(i)), id, #[trigger] times[i])
            == PollOutcome::Pending { retry_after_secs: PENDING_RETRY_SECS }
        &&& poll_all(m, id, times.take(i + 1))[id].poll_count == poll_all(
            m,
            id,
            times.take(i),
        )[id].poll_count + 1
    } by {
        let pre = times.take(i);
        let post = times.take(i + 1);
        assert(pre.len() < times.len());
        assert(pre.len() == i);
        lemma_prefix_counts(m, id, pre);
        lemma_prefix_counts(m, id, post);
        assert(post.drop_last() =~= pre);
        assert(post.last() == times[i]);
    }
}

/// After polls at times before completion, the job's record differs only in
/// its counter, which equals the number of those polls.
proof fn lemma_prefix_counts(m: Map<u128, WorkItem>, id: u128, times: Seq<u64>)
    requires
        m.contains_key(id),
        m[id].poll_count == 0,
        times.len() < u64::MAX,
        forall|i: int| 0 <= i < times.len() ==> #[trigger] times[i] < m[id].completes_at_ms,
    ensures
        poll_all(m, id, times) == m.insert(
            id,
            WorkItem { poll_count: times.len() as u64, ..m[id] },
        ),
    decreases times.len(),
{
    if times.len() == 0 {
        assert(m.insert(id, WorkItem { poll_count: 0, ..m[id] }) =~= m);
    } else {
        let rest = times.drop_last();
        assert forall|i: int| 0 <= i < rest.len() implies #[trigger] rest[i]
            < m[id].completes_at_ms by {
            assert(rest[i] == times[i]);
        }
        lemma_prefix_counts(m, id, rest);
        let before = poll_all(m, id, rest);
        assert(is_pending(before, id, times.last()));
        assert(bumped(rest.len() as u64) == times.len() as u64);
        assert(poll_all(m, id, times) =~= m.insert(
            id,
            WorkItem { poll_count: times.len() as u64, ..m[id] },
        ));
    }
}

/// Once a job is complete, polling it any number of times changes nothing and
/// every poll answers the same `Done` record.
pub proof fn lemma_done_polls_identical(m: Map<u128, WorkItem>, id: u128, times: Seq<u64>)
    requires
        m.contains_key(id),
        forall|i: int| 0 <= i < times.len() ==> #[trigger] times[i] >= m[id].completes_at_ms,
    ensures
        poll_all(m, id, times) == m,
        forall|i: int|
            0 <= i < times.len() ==> poll_outcome(poll_all(m, id, times.take(i)), id, #[trigger] times[i])
                == (PollOutcome::Done { item: m[id] }),
{
    lemma_done_prefix(m, id, times);
    assert forall|i: int| 0 <= i < times.len() implies poll_outcome(
        poll_all(m, id, times.take(i)),
        id,
        #[trigger] times[i],
    ) == (PollOutcome::Done { item: m[id] }) by {
        let pre = times.take(i);
        assert forall|j: int| 0 <= j < pre.len() implies #[trigger] pre[j] >= m[id].completes_at_ms by {
            assert(pre[j] == times[j]);
        }
        lemma_done_prefix(m, id, pre);
    }
}

/// Polls of a complete job leave the registry as it was.
proof fn lemma_done_prefix(m: Map<u128, WorkItem>, id: u128, times: Seq<u64>)
    requires
        m.contains_key(id),
        forall|i: int| 0 <= i < times.len() ==> #[trigger] times[i] >= m[id].completes_at_ms,
    ensures
        poll_all(m, id, times) == m,
    decreases times.len(),
{
    if times.len() > 0 {
        let rest = times.drop_last();
        assert forall|i: int| 0 <= i < rest.len() implies #[trigger] rest[i]
            >= m[id].completes_at_ms by {
            assert(rest[i] == times[i]);
        }
        lemma_done_prefix(m, id, rest);
        assert(times.last() == times[times.len() - 1]);
    }
}

/// Polls never drop a job: every identifier issued stays held, so `submit`,
/// which only hands out identifiers not held, never issues one twice.
pub proof fn lemma_issued_ids_stay(m: Map<u128, WorkItem>, id: u128, times: Seq<u64>, k: u128)
    requires
        m.contains_key(k),
    ensures
        poll_all(m, id, times).contains_key(k),
    decreases times.len(),
{
    if times.len() > 0 {
        lemma_issued_ids_stay(m, id, times.drop_last(), k);
    }
}

/// The client takes a reply that reports no such job, or a finished one, as
/// final, whatever wait hint it carries.
pub proof fn lemma_not_found_and_done_are_final(retry_after: Option<Seq<char>>)
    ensures
        retry_hint(NOT_FOUND, retry_after) is None,
        retry_hint(OK, retry_after) is None,
{
}

} // verus!
