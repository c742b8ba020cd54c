//! The rate window keeper: a sliding window of attempt timestamps and an
//! escalating backoff, in whole milliseconds.

use bounded_vec_deque::BoundedVecDeque;
use vstd::prelude::*;

use crate::clock::{duration_millis, elapsed_since_epoch};
use crate::window::{max_len_of, window_len, window_new, window_of, window_pop_front, window_push_back};

verus! {

/// Milliseconds in a second.
pub const MILLIS_PER_SEC: u64 = 1000;

/// The least base delay, in milliseconds.
pub const MIN_BASE_DELAY_MILLIS: u64 = 10;

/// Why a keeper could not be built.
#[derive(Debug, Clone, Copy, PartialEq, Eq, Structural)]
pub enum ConfigError {
    /// The attempt limit was zero.
    ZeroLimit,
    /// The period was zero.
    ZeroPeriod,
}

/// The base delay, in milliseconds, for `limit` attempts per `period_secs`
/// seconds: the even spacing of the attempts, rounded down to a whole
/// millisecond, but never under the floor.
pub open spec fn base_delay_of(limit: nat, period_secs: nat) -> nat {
    let even = (period_secs * (MILLIS_PER_SEC as nat)) / limit;
    if even >= MIN_BASE_DELAY_MILLIS {
        even
    } else {
        MIN_BASE_DELAY_MILLIS as nat
    }
}

/// The abstract state of a keeper. Times and delays are in milliseconds.
pub struct KeeperModel {
    pub limit: nat,
    pub period: nat,
    pub base_delay: nat,
    /// Timestamps of recent attempts, oldest first.
    pub window: Seq<u64>,
    pub backoff: nat,
}

impl KeeperModel {
    /// A fresh keeper for `limit` attempts per `period_secs` seconds.
    pub open spec fn initial(limit: nat, period_secs: nat) -> KeeperModel {
        KeeperModel {
            limit,
            period: period_secs * (MILLIS_PER_SEC as nat),
            base_delay: base_delay_of(limit, period_secs),
            window: Seq::empty(),
            backoff: 0,
        }
    }

    /// The limit and period are positive and fit their machine types, the base
    /// delay lies between the floor and the period, and between attempts the
    /// window holds at most `limit` timestamps.
    pub open spec fn wf(self) -> bool {
        &&& 1 <= self.limit <= u32::MAX
        &&& MILLIS_PER_SEC <= self.period <= u32::MAX * MILLIS_PER_SEC
        &&& MIN_BASE_DELAY_MILLIS <= self.base_delay <= self.period
        &&& self.window.len() <= self.limit
        &&& self.backoff <= u64::MAX
    }

    /// An attempt at `now` is over the rate when the window holds `limit`
    /// earlier attempts and the oldest of them lies less than one period back.
    pub open spec fn over_rate(self, now: u64) -> bool {
        &&& self.window.len() == self.limit
        &&& now - self.window[0] < self.period
    }

    /// The backoff counter after one more over-rate attempt; it stops at the
    /// largest `u64`.
    pub open spec fn raised_backoff(self) -> nat {
        if self.backoff < u64::MAX {
            self.backoff + 1
        } else {
            self.backoff
        }
    }

    /// The backoff part of a delay at backoff `count`: the base delay times
    /// `count`, with the even spacing rounded down once, after the product.
    pub open spec fn backoff_term(self, count: nat) -> nat {
        let spread = (self.period * count) / self.limit;
        let floor = (MIN_BASE_DELAY_MILLIS as nat) * count;
        if spread >= floor {
            spread
        } else {
            floor
        }
    }

    /// The delay handed out for an attempt at `now`.
    pub open spec fn delay_at(self, now: u64) -> nat {
        if self.over_rate(now) {
            self.backoff_term(self.raised_backoff()) + (self.window[0] + self.period - now) as nat
        } else {
            0
        }
    }

    /// The state after an attempt at `now`: the timestamp joins the window,
    /// which then drops its oldest entry if it held `limit + 1`.
    pub open spec fn after(self, now: u64) -> KeeperModel {
        KeeperModel {
            window: if self.window.len() == self.limit {
                self.window.push(now).drop_first()
            } else {
                self.window.push(now)
            },
            backoff: if self.over_rate(now) {
                self.raised_backoff()
            } else {
                0
            },
            ..self
        }
    }

    /// The state after attempts at each of `times`, in order.
    pub open spec fn run(self, times: Seq<u64>) -> KeeperModel
        decreases times.len(),
    {
        if times.len() == 0 {
            self
        } else {
            self.after(times[0]).run(times.drop_first())
        }
    }
}

/// Admission control over one global sliding window of attempts.
pub struct Keeper {
    limit: u32,
    period_millis: u64,
    queue: BoundedVecDeque<u64>,
    backoff_count: u64,
    base_delay: u64,
}

impl View for Keeper {
    type V = KeeperModel;

    closed spec fn view(&self) -> KeeperModel {
        KeeperModel {
            limit: self.limit as nat,
            period: self.period_millis as nat,
            base_delay: self.base_delay as nat,
            window: window_of(self.queue),
            backoff: self.backoff_count as nat,
        }
    }
}

impl Keeper {
    /// The model is well formed and the deque's limit is `limit + 1`.
    pub closed spec fn wf(&self) -> bool {
        &&& self@.wf()
        &&& max_len_of(self.queue) == self.limit + 1
    }

    /// A keeper for at most `limit` attempts per `period` seconds; refused
    /// when either is zero. The window of `limit + 1` timestamps must fit in
    /// the address space.
    pub fn new(limit: u32, period: u32) -> (r: Result<Keeper, ConfigError>)
        requires
            (limit + 1) * 8 <= isize::MAX,
        ensures
            r is Ok <==> limit > 0 && period > 0,
            r == Err::<Keeper, ConfigError>(ConfigError::ZeroLimit) <==> limit == 0,
            r == Err::<Keeper, ConfigError>(ConfigError::ZeroPeriod) <==> limit > 0 && period == 0,
            r matches Ok(k) ==> k.wf() && k@ == KeeperModel::initial(limit as nat, period as nat),
    {
        if limit == 0 {
            return Err(ConfigError::ZeroLimit);
        }
        if period == 0 {
            return Err(ConfigError::ZeroPeriod);
        }
        let period_millis: u64 = period as u64 * MILLIS_PER_SEC;
        let even: u64 = period_millis / (limit as u64);
        assert(even <= period_millis) by (nonlinear_arith)
            requires
                even == period_millis / (limit as u64),
                limit >= 1,
        ;
        let base_delay: u64 = if even >= MIN_BASE_DELAY_MILLIS {
            even
        } else {
            MIN_BASE_DELAY_MILLIS
        };
        let queue = window_new(limit as usize + 1);
        Ok(Keeper { limit, period_millis, queue, backoff_count: 0, base_delay })
    }

    /// Records an attempt at `now` (milliseconds since the epoch) and returns
    /// the delay, in milliseconds, that the caller should observe.
    pub fn record_attempt_at(&mut self, now: u64) -> (delay: u128)
        requires
            old(self).wf(),
        ensures
            final(self).wf(),
            final(self)@ == old(self)@.after(now),
            delay == old(self)@.delay_at(now),
    {
        let ghost before = self@;
        let _ = window_push_back(&mut self.queue, now);
        if window_len(&self.queue) as u64 == self.limit as u64 + 1 {
            let last: u64 = match window_pop_front(&mut self.queue) {
                Some(t) => t,
                None => 0,
            };
            assert(last == before.window[0]);
            if (now as u128) < (last as u128) + (self.period_millis as u128) {
                if self.backoff_count < u64::MAX {
                    self.backoff_count = self.backoff_count + 1;
                }
                let period: u128 = self.period_millis as u128;
                let count: u128 = self.backoff_count as u128;
                assert(period * count <= 4294967295000u128 * 18446744073709551615u128)
                    by (nonlinear_arith)
                    requires
                        period <= 4294967295000u128,
                        count <= 18446744073709551615u128,
                ;
                let spread: u128 = period * count / (self.limit as u128);
                assert(spread <= period * count) by (nonlinear_arith)
                    requires
                        spread as int == (period * count) as int / (self.limit as int),
                        self.limit >= 1,
                ;
                let floor: u128 = MIN_BASE_DELAY_MILLIS as u128 * count;
                let term: u128 = if spread >= floor {
                    spread
                } else {
                    floor
                };
                let adjustment: u128 = (last as u128 + self.period_millis as u128) - now as u128;
                assert(self@.window =~= before.after(now).window);
                return term + adjustment;
            }
        }
        self.backoff_count = 0;
        assert(self@.window =~= before.after(now).window);
        0
    }

    /// The attempt limit per period.
    pub fn limit(&self) -> (r: u32)
        ensures
            r == self@.limit,
    {
        self.limit
    }

    /// The period, in milliseconds.
    pub fn period_millis(&self) -> (r: u64)
        ensures
            r == self@.period,
    {
        self.period_millis
    }

    /// The base delay, in milliseconds.
    pub fn base_delay_millis(&self) -> (r: u64)
        ensures
            r == self@.base_delay,
    {
        self.base_delay
    }

    /// The current backoff counter.
    pub fn backoff_count(&self) -> (r: u64)
        ensures
            r == self@.backoff,
    {
        self.backoff_count
    }

    /// The number of timestamps the window holds.
    pub fn window_size(&self) -> (r: usize)
        ensures
            r == self@.window.len(),
    {
        window_len(&self.queue)
    }

    /// Records an attempt now and returns the delay, in milliseconds, that
    /// the caller should observe; `None`, with nothing recorded, where the
    /// clock cannot be read as milliseconds since the epoch.
    pub fn get_delay(&mut self) -> (r: Option<u128>)
        requires
            old(self).wf(),
        ensures
            final(self).wf(),
            r is None ==> final(self)@ == old(self)@,
            r matches Some(d) ==> exists|now: u64|
                final(self)@ == old(self)@.after(now) && d == old(self)@.delay_at(now),
    {
        match elapsed_since_epoch() {
            None => None,
            Some(elapsed) => self.record_attempt_at_millis(duration_millis(elapsed)),
        }
    }

    /// Records an attempt at `millis` since the epoch, where that fits a
    /// `u64`, and returns the delay; `None`, with nothing recorded, where it
    /// does not.
    pub fn record_attempt_at_millis(&mut self, millis: u128) -> (r: Option<u128>)
        requires
            old(self).wf(),
        ensures
            final(self).wf(),
            r is None <==> millis > u64::MAX,
            r is None ==> final(self)@ == old(self)@,
            r matches Some(d) ==> final(self)@ == old(self)@.after(millis as u64) && d == old(
                self,
            )@.delay_at(millis as u64),
    {
        if millis > u64::MAX as u128 {
            None
        } else {
            Some(self.record_attempt_at(millis as u64))
        }
    }

    /// A well-formed keeper has a well-formed model.
    pub proof fn lemma_wf_model(&self)
        requires
            self.wf(),
        ensures
            self@.wf(),
    {
    }
}

} // verus!
