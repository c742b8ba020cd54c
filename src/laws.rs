//! Properties of the keeper that hold over whole runs of attempts.

use vstd::prelude::*;

use crate::keeper::KeeperModel;

verus! {

/// One attempt keeps a well-formed state well formed, and leaves the limit,
/// the period and the base delay as they were.
pub proof fn attempt_keeps_wf(m: KeeperModel, now: u64)
    requires
        m.wf(),
    ensures
        m.after(now).wf(),
        m.after(now).limit == m.limit,
        m.after(now).period == m.period,
        m.after(now).base_delay == m.base_delay,
{
}

/// After any sequence of attempts the window holds at most `limit + 1`
/// timestamps.
pub proof fn window_stays_bounded(m: KeeperModel, times: Seq<u64>)
    requires
        m.wf(),
    ensures
        m.run(times).wf(),
        m.run(times).limit == m.limit,
        m.run(times).window.len() <= m.limit + 1,
    decreases times.len(),
{
    if times.len() > 0 {
        attempt_keeps_wf(m, times[0]);
        window_stays_bounded(m.after(times[0]), times.drop_first());
    }
}

/// An attempt that finds the oldest timestamp of a full window at least one
/// period back resets the backoff to zero and asks for no delay, whatever the
/// backoff was before.
pub proof fn within_rate_resets_backoff(m: KeeperModel, now: u64)
    requires
        m.wf(),
        m.window.len() == m.limit,
        now - m.window[0] >= m.period,
    ensures
        m.after(now).backoff == 0,
        m.delay_at(now) == 0,
{
}

/// Two over-rate attempts in a row: the second leaves a strictly larger
/// backoff than the first, and so a backoff term in the delay that is no
/// smaller, as long as the counter has not reached the largest `u64`.
pub proof fn over_rate_escalates(m: KeeperModel, t1: u64, t2: u64)
    requires
        m.wf(),
        m.over_rate(t1),
        m.after(t1).over_rate(t2),
        m.after(t1).backoff < u64::MAX,
    ensures
        m.after(t1).after(t2).backoff == m.after(t1).backoff + 1,
        m.after(t1).after(t2).backoff > m.after(t1).backoff,
        m.after(t1).backoff_term(m.after(t1).after(t2).backoff) >= m.backoff_term(
            m.after(t1).backoff,
        ),
{
    let b1 = m.after(t1).backoff;
    let p = m.period;
    let l = m.limit;
    assert((p * (b1 + 1)) / l >= (p * b1) / l) by (nonlinear_arith)
        requires
            l >= 1,
    ;
}

} // verus!
