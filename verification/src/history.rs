//! What holds of a quota window over a whole sequence of requests.
//!
//! Requests reach a window one at a time: callers that race for it are
//! served in the order in which they take its lock. A sequence of arrival
//! instants therefore stands for any number of callers, and the laws below
//! hold of every such order.

use vstd::prelude::*;
use crate::ratelimiter::{Admission, QuotaPolicy, Ratelimiter};

verus! {

/// The window after the requests arriving at `times` were served in order,
/// starting from `w`.
pub open spec fn run(policy: QuotaPolicy, w: Ratelimiter, times: Seq<u64>) -> Ratelimiter
    decreases times.len(),
{
    if times.len() == 0 {
        w
    } else {
        run(policy, w, times.drop_last()).after(policy, times.last())
    }
}

/// How many of the requests arriving at `times` are admitted when they are
/// served in order, starting from `w`.
pub open spec fn admitted(policy: QuotaPolicy, w: Ratelimiter, times: Seq<u64>) -> nat
    decreases times.len(),
{
    if times.len() == 0 {
        0
    } else {
        let before = run(policy, w, times.drop_last());
        let this: nat = if before.admits(policy, times.last()) {
            1
        } else {
            0
        };
        admitted(policy, w, times.drop_last()) + this
    }
}

/// Every instant of `times` falls into the window that `w` is counting.
pub open spec fn all_within(policy: QuotaPolicy, w: Ratelimiter, times: Seq<u64>) -> bool {
    forall|i: int| 0 <= i < times.len() ==> !w.expired(policy, #[trigger] times[i])
}

/// The smaller of two numbers.
pub open spec fn least(a: int, b: int) -> int {
    if a <= b {
        a
    } else {
        b
    }
}

/// Serving a sequence that begins with `first` is serving `first` and then
/// the rest.
pub proof fn lemma_run_first(policy: QuotaPolicy, w: Ratelimiter, first: u64, rest: Seq<u64>)
    ensures
        run(policy, w, seq![first] + rest) == run(policy, w.after(policy, first), rest),
        admitted(policy, w, seq![first] + rest) == admitted(policy, w.after(policy, first), rest)
            + if w.admits(policy, first) {
            1nat
        } else {
            0nat
        },
    decreases rest.len(),
{
    let all = seq![first] + rest;
    if rest.len() == 0 {
        assert(all.drop_last() =~= Seq::<u64>::empty());
        assert(all.last() == first);
        assert(run(policy, w, all.drop_last()) == w);
        assert(admitted(policy, w, all.drop_last()) == 0);
    } else {
        lemma_run_first(policy, w, first, rest.drop_last());
        assert(all.drop_last() =~= seq![first] + rest.drop_last());
        assert(all.last() == rest.last());
    }
}

/// The count of a window never exceeds the budget, whatever requests it
/// serves and whatever the clock does in between.
pub proof fn lemma_count_never_exceeds_budget(
    policy: QuotaPolicy,
    w: Ratelimiter,
    times: Seq<u64>,
)
    requires
        policy.wf(),
        w.wf(policy),
    ensures
        run(policy, w, times).wf(policy),
    decreases times.len(),
{
    if times.len() > 0 {
        lemma_count_never_exceeds_budget(policy, w, times.drop_last());
    }
}

/// Of the requests that fall into one window, exactly as many are admitted as
/// the window has budget left, and the rest are rejected: never more, never
/// fewer. The window counts each admitted request and keeps its start.
pub proof fn lemma_window_admits_exactly_its_budget(
    policy: QuotaPolicy,
    w: Ratelimiter,
    times: Seq<u64>,
)
    requires
        w.wf(policy),
        all_within(policy, w, times),
    ensures
        admitted(policy, w, times) == least(
            times.len() as int,
            policy.max_requests - w.requests,
        ),
        run(policy, w, times).time == w.time,
        run(policy, w, times).requests == w.requests + admitted(policy, w, times),
        w.requests + admitted(policy, w, times) <= policy.max_requests,
    decreases times.len(),
{
    if times.len() > 0 {
        let head = times.drop_last();
        assert forall|i: int| 0 <= i < head.len() implies !w.expired(
            policy,
            #[trigger] head[i],
        ) by {
            assert(head[i] == times[i]);
        }
        lemma_window_admits_exactly_its_budget(policy, w, head);
        let before = run(policy, w, head);
        assert(!w.expired(policy, times[times.len() - 1]));
        assert(before.expired(policy, times.last()) == w.expired(policy, times.last()));
    }
}

/// The number of requests admitted within a single window never exceeds the
/// budget. The request that opens the window is one of them.
pub proof fn lemma_new_window_admits_at_most_budget(
    policy: QuotaPolicy,
    w: Ratelimiter,
    first: u64,
    rest: Seq<u64>,
)
    requires
        policy.wf(),
        w.expired(policy, first),
        all_within(policy, (Ratelimiter { time: first, requests: 1 }), rest),
    ensures
        admitted(policy, w, seq![first] + rest) == least(
            1 + rest.len() as int,
            policy.max_requests as int,
        ),
        admitted(policy, w, seq![first] + rest) <= policy.max_requests,
        run(policy, w, seq![first] + rest).time == first,
{
    let opened = Ratelimiter { time: first, requests: 1 };
    assert(w.after(policy, first) == opened);
    lemma_run_first(policy, w, first, rest);
    lemma_window_admits_exactly_its_budget(policy, opened, rest);
}

/// Once a window has admitted its whole budget, the next request that falls
/// into it is rejected, is told to wait for a time that is not zero, and
/// leaves the window as it was.
pub proof fn lemma_spent_window_rejects(
    policy: QuotaPolicy,
    w: Ratelimiter,
    times: Seq<u64>,
    now: u64,
)
    requires
        w.wf(policy),
        all_within(policy, w, times),
        w.requests + admitted(policy, w, times) == policy.max_requests,
        !w.expired(policy, now),
    ensures
        run(policy, w, times).verdict(policy, now) matches Admission::Rejected { retry_after }
            && retry_after > 0 && retry_after == w.time_left(policy, now),
        run(policy, w, times).after(policy, now) == run(policy, w, times),
{
    lemma_window_admits_exactly_its_budget(policy, w, times);
}

/// A request that arrives a full window length or more after the window
/// began is admitted, spent or not, and opens a new window of which it is the
/// first request.
pub proof fn lemma_rollover_admits(policy: QuotaPolicy, w: Ratelimiter, now: u64)
    requires
        now >= w.time + policy.window,
    ensures
        w.verdict(policy, now) == Admission::Admitted,
        w.after(policy, now) == (Ratelimiter { time: now, requests: 1 }),
{
}

/// A window's count changes in two ways only: a request within the window
/// that finds budget left adds one to it, and a request that finds the window
/// over sets it to one and begins a new window at its own instant. Nothing
/// lowers the count of a window that is still running.
pub proof fn lemma_count_changes_by_request_only(policy: QuotaPolicy, w: Ratelimiter, now: u64)
    ensures
        w.after(policy, now) == w || (!w.expired(policy, now) && w.requests < policy.max_requests
            && w.after(policy, now) == (Ratelimiter {
            time: w.time,
            requests: (w.requests + 1) as u16,
        })) || (w.expired(policy, now) && w.after(policy, now) == (Ratelimiter {
            time: now,
            requests: 1,
        })),
        w.verdict(policy, now) != Admission::Admitted ==> w.after(policy, now) == w,
{
}

/// A new window is open: it has budget left. A spent window stays spent
/// until it is over: only a request that arrives a window length or more
/// after it began finds budget again, and there is no other way to reset it.
pub proof fn lemma_only_rollover_reopens(policy: QuotaPolicy, w: Ratelimiter, now: u64)
    requires
        policy.wf(),
    ensures
        !(Ratelimiter { time: now, requests: 0 }).exhausted(policy),
        w.exhausted(policy) && !w.expired(policy, now) ==> w.after(policy, now) == w,
        w.exhausted(policy) && !w.after(policy, now).exhausted(policy) ==> w.expired(policy, now),
{
}

/// The waiting time a rejected request is told is never negative and never
/// zero, and never longer than a window, also when the clock reads an instant
/// before the window began.
pub proof fn lemma_retry_after_in_range(policy: QuotaPolicy, w: Ratelimiter, now: u64)
    ensures
        0 <= w.time_left(policy, now) <= policy.window,
        w.verdict(policy, now) matches Admission::Rejected { retry_after } ==> 0 < retry_after
            <= policy.window,
        now < w.time && !w.admits(policy, now) ==> w.verdict(policy, now) == (Admission::Rejected {
            retry_after: policy.window,
        }),
{
}

/// What the status query reports is true of the window it is asked of,
/// whenever it is asked: the count and the budget as they are, and as
/// remaining exactly the number of requests that the window still admits. The
/// query reads the window and hands back a report; the window itself is not
/// among its results, so that asking changes nothing.
pub proof fn lemma_status_reports_true_budget(
    policy: QuotaPolicy,
    w: Ratelimiter,
    asked_at: u64,
    times: Seq<u64>,
)
    ensures
        w.status_at(policy, asked_at).used == w.requests,
        w.status_at(policy, asked_at).limit == policy.max_requests,
        w.wf(policy) ==> w.status_at(policy, asked_at).remaining == policy.max_requests
            - w.requests,
        all_within(policy, w, times) && w.wf(policy) ==> admitted(policy, w, times) == least(
            times.len() as int,
            w.status_at(policy, asked_at).remaining as int,
        ),
{
    if all_within(policy, w, times) && w.wf(policy) {
        lemma_window_admits_exactly_its_budget(policy, w, times);
    }
}

} // verus!
