//! The retry policy: how long to wait before an attempt is repeated, and when
//! to stop repeating it.
use vstd::prelude::*;
use crate::bindings::random_u32;
use crate::errors::{
    ApiBusinessError, ApiBusinessErrorView, GeweNoticeError, GeweNoticeErrorView, NetworkError,
    NetworkErrorView,
};

verus! {

/// The smallest jitter factor, in thousandths.
pub const JITTER_MIN: u64 = 500;

/// The largest jitter factor, in thousandths.
pub const JITTER_MAX: u64 = 1000;

/// What the retry loop reports when it was allowed no attempt at all.
pub const RETRIES_EXHAUSTED: &'static str = "最大重试次数已超过";

/// `initial` multiplied `steps` times by `multiplier`.
pub open spec fn scaled(initial: int, multiplier: int, steps: nat) -> int
    decreases steps,
{
    if steps == 0 {
        initial
    } else {
        scaled(initial, multiplier, (steps - 1) as nat) * multiplier
    }
}

/// The jitter factor, in thousandths, that a random draw selects: the draws
/// are spread evenly over `JITTER_MIN ..= JITTER_MAX`.
pub open spec fn jitter_of(draw: u32) -> int {
    JITTER_MIN + draw % 501
}

/// How a delivery is retried. Delays are in milliseconds; attempts are counted
/// from one.
#[derive(Debug, Clone, Copy)]
pub struct RetryPolicy {
    max_retries: u8,
    initial_delay_ms: u64,
    max_delay_ms: u64,
    multiplier: u32,
}

/// What a `RetryPolicy` is in contracts: its strings are sequences of characters.
pub struct RetryPolicyView {
    pub max_retries: u8,
    pub initial_delay_ms: u64,
    pub max_delay_ms: u64,
    pub multiplier: u32,
}

impl RetryPolicyView {
    /// A policy can be used where the delay has room to grow: the largest
    /// delay is no smaller than the first, and the multiplier is at least one.
    pub open spec fn valid(self) -> bool {
        self.max_delay_ms >= self.initial_delay_ms && self.multiplier >= 1
    }

    /// The delay before the attempt that follows attempt number `attempt`,
    /// with the jitter factor `jitter` in thousandths: the first delay
    /// multiplied once for every earlier attempt, scaled by the jitter, and
    /// cut off at the largest delay.
    pub open spec fn backoff(self, attempt: int, jitter: int) -> int {
        let grown = scaled(
            self.initial_delay_ms as int,
            self.multiplier as int,
            (attempt - 1) as nat,
        ) * jitter / 1000;
        if grown < self.max_delay_ms {
            grown
        } else {
            self.max_delay_ms as int
        }
    }

    /// The sum of the delays before the attempt that follows attempt number
    /// `attempt` over the jitter factors `JITTER_MIN ..= JITTER_MIN + spread`.
    /// With `spread` at its largest this is the expected delay times the
    /// number of jitter factors.
    pub open spec fn backoff_sum(self, attempt: int, spread: nat) -> int
        decreases spread,
    {
        if spread == 0 {
            self.backoff(attempt, JITTER_MIN as int)
        } else {
            self.backoff_sum(attempt, (spread - 1) as nat) + self.backoff(attempt, JITTER_MIN + spread)
        }
    }
}

impl View for RetryPolicy {
    type V = RetryPolicyView;

    closed spec fn view(&self) -> RetryPolicyView {
        RetryPolicyView {
            max_retries: self.max_retries,
            initial_delay_ms: self.initial_delay_ms,
            max_delay_ms: self.max_delay_ms,
            multiplier: self.multiplier,
        }
    }
}

proof fn lemma_scaled_grows(initial: int, multiplier: int, steps: nat)
    requires
        initial >= 0,
        multiplier >= 1,
    ensures
        0 <= initial <= scaled(initial, multiplier, steps),
        scaled(initial, multiplier, steps) <= scaled(initial, multiplier, steps + 1),
    decreases steps,
{
    if steps > 0 {
        lemma_scaled_grows(initial, multiplier, (steps - 1) as nat);
    }
    let here = scaled(initial, multiplier, steps);
    assert(here * multiplier >= here) by (nonlinear_arith)
        requires
            here >= 0,
            multiplier >= 1,
    ;
}

proof fn lemma_jittered_grows(low: int, high: int, jitter: int)
    requires
        0 <= low <= high,
        0 <= jitter,
    ensures
        low * jitter / 1000 <= high * jitter / 1000,
        0 <= low * jitter / 1000,
{
    assert(low * jitter <= high * jitter && 0 <= low * jitter) by (nonlinear_arith)
        requires
            0 <= low <= high,
            0 <= jitter,
    ;
}

impl RetryPolicy {
    #[verifier::type_invariant]
    spec fn well_formed(self) -> bool {
        self.max_delay_ms >= self.initial_delay_ms && self.multiplier >= 1
    }

    /// A policy with the given limits, where they make a valid one.
    pub fn new(max_retries: u8, initial_delay_ms: u64, max_delay_ms: u64, multiplier: u32) -> (r:
        Option<Self>)
        ensures
            match r {
                Some(p) => p@ == (RetryPolicyView {
                    max_retries,
                    initial_delay_ms,
                    max_delay_ms,
                    multiplier,
                }) && p@.valid(),
                None => !(RetryPolicyView {
                    max_retries,
                    initial_delay_ms,
                    max_delay_ms,
                    multiplier,
                }).valid(),
            },
    {
        if max_delay_ms >= initial_delay_ms && multiplier >= 1 {
            Some(RetryPolicy { max_retries, initial_delay_ms, max_delay_ms, multiplier })
        } else {
            None
        }
    }

    /// Three attempts, a tenth of a second at first, doubling, five seconds
    /// at most.
    pub fn standard() -> (r: Self)
        ensures
            r@ == (RetryPolicyView {
                max_retries: 3,
                initial_delay_ms: 100,
                max_delay_ms: 5000,
                multiplier: 2,
            }),
            r@.valid(),
    {
        RetryPolicy { max_retries: 3, initial_delay_ms: 100, max_delay_ms: 5000, multiplier: 2 }
    }

    /// The number of attempts that a delivery may take.
    pub fn max_retries(&self) -> (r: u8)
        ensures
            r == self@.max_retries,
            self@.valid(),
    {
        proof {
            use_type_invariant(self);
        }
        self.max_retries
    }

    /// The delay in milliseconds before the attempt that follows attempt
    /// number `attempt`, for the random draw `draw`.
    pub fn backoff_for(&self, attempt: u8, draw: u32) -> (r: u64)
        requires
            attempt >= 1,
        ensures
            r == self@.backoff(attempt as int, jitter_of(draw)),
            r <= self@.max_delay_ms,
    {
        proof {
            use_type_invariant(self);
        }
        let jitter: u128 = (JITTER_MIN + (draw % 501) as u64) as u128;
        let limit: u128 = 2 * (self.max_delay_ms as u128);
        let multiplier: u128 = self.multiplier as u128;
        let mut grown: u128 = self.initial_delay_ms as u128;
        let mut step: u8 = 1;
        while step < attempt && grown < limit
            invariant
                1 <= step <= attempt,
                multiplier == self.multiplier,
                limit == 2 * self.max_delay_ms,
                self.multiplier >= 1,
                grown == scaled(
                    self.initial_delay_ms as int,
                    self.multiplier as int,
                    (step - 1) as nat,
                ),
                grown <= limit * 0x1_0000_0000,
            decreases attempt - step,
        {
            assert(grown * multiplier < limit * 0x1_0000_0000) by (nonlinear_arith)
                requires
                    grown < limit,
                    multiplier < 0x1_0000_0000,
            ;
            grown = grown * multiplier;
            step += 1;
        }
        let ghost exact = scaled(
            self.initial_delay_ms as int,
            self.multiplier as int,
            (attempt - 1) as nat,
        );
        proof {
            lemma_scaled_reaches(
                self.initial_delay_ms as int,
                self.multiplier as int,
                (step - 1) as nat,
                (attempt - 1) as nat,
            );
            lemma_jittered_grows(grown as int, exact, jitter as int);
            if step < attempt {
                assert(grown * jitter / 1000 >= self.max_delay_ms) by (nonlinear_arith)
                    requires
                        grown >= 2 * self.max_delay_ms,
                        jitter >= 500,
                ;
            }
        }
        assert(grown * jitter <= limit * 0x1_0000_0000 * 1000) by (nonlinear_arith)
            requires
                grown <= limit * 0x1_0000_0000,
                0 <= jitter <= 1000,
        ;
        let jittered: u128 = grown * jitter / 1000;
        if jittered < self.max_delay_ms as u128 {
            jittered as u64
        } else {
            self.max_delay_ms
        }
    }

    /// The delay in milliseconds before the attempt that follows attempt
    /// number `attempt`, with a jitter factor drawn at random.
    pub fn calculate_backoff(&self, attempt: u8) -> (r: u64)
        requires
            attempt >= 1,
        ensures
            exists|draw: u32| r == self@.backoff(attempt as int, jitter_of(draw)),
            r <= self@.max_delay_ms,
    {
        let draw = random_u32();
        self.backoff_for(attempt, draw)
    }
}

proof fn lemma_scaled_reaches(initial: int, multiplier: int, from: nat, to: nat)
    requires
        initial >= 0,
        multiplier >= 1,
        from <= to,
    ensures
        0 <= scaled(initial, multiplier, from) <= scaled(initial, multiplier, to),
    decreases to - from,
{
    lemma_scaled_grows(initial, multiplier, from);
    if from < to {
        lemma_scaled_reaches(initial, multiplier, from + 1, to);
    }
}

impl Default for RetryPolicy {
    /// The standard policy.
    fn default() -> (r: Self)
        ensures
            r@ == (RetryPolicyView {
                max_retries: 3,
                initial_delay_ms: 100,
                max_delay_ms: 5000,
                multiplier: 2,
            }),
            r@.valid(),
    {
        RetryPolicy::standard()
    }
}

/// With one jitter factor, a valid policy's delay does not shrink from one
/// attempt to the next, never exceeds the largest delay, and is never negative.
pub proof fn lemma_backoff_grows(policy: RetryPolicyView, attempt: int, jitter: int)
    requires
        policy.valid(),
        attempt >= 1,
        jitter >= 0,
    ensures
        0 <= policy.backoff(attempt, jitter) <= policy.backoff(attempt + 1, jitter),
        policy.backoff(attempt, jitter) <= policy.max_delay_ms,
{
    let low = scaled(policy.initial_delay_ms as int, policy.multiplier as int, (attempt - 1) as nat);
    let high = scaled(policy.initial_delay_ms as int, policy.multiplier as int, attempt as nat);
    lemma_scaled_grows(policy.initial_delay_ms as int, policy.multiplier as int, (attempt - 1) as nat);
    lemma_jittered_grows(low, high, jitter);
}

/// The expected delay of a valid policy does not shrink from one attempt to
/// the next: summed over any range of jitter factors that starts at the
/// smallest, the delays before a later attempt are no less than those before
/// an earlier one. No single delay exceeds the largest delay, so neither does
/// their mean.
pub proof fn lemma_expected_backoff_grows(policy: RetryPolicyView, attempt: int, spread: nat)
    requires
        policy.valid(),
        attempt >= 1,
    ensures
        policy.backoff_sum(attempt, spread) <= policy.backoff_sum(attempt + 1, spread),
        policy.backoff_sum(attempt, spread) <= (spread + 1) * policy.max_delay_ms,
    decreases spread,
{
    lemma_backoff_grows(policy, attempt, JITTER_MIN + spread);
    if spread > 0 {
        lemma_expected_backoff_grows(policy, attempt, (spread - 1) as nat);
    }
    assert((spread + 1) * policy.max_delay_ms == spread * policy.max_delay_ms + policy.max_delay_ms)
        by (nonlinear_arith);
}

/// What the retry loop does after an attempt.
#[derive(Debug)]
pub enum RetryVerdict<T> {
    /// The delivery is over, with this result.
    Finish(Result<T, GeweNoticeError>),
    /// Wait this many milliseconds, then attempt again.
    RetryAfter { delay_ms: u64 },
}

/// What a `RetryVerdict` is in contracts: its strings are sequences of characters.
pub enum RetryVerdictView<T> {
    Finish(Result<T, GeweNoticeErrorView>),
    RetryAfter { delay_ms: int },
}

/// The view of the result of an attempt.
pub open spec fn outcome_view<T>(outcome: Result<T, GeweNoticeError>) -> Result<T, GeweNoticeErrorView> {
    match outcome {
        Ok(v) => Ok(v),
        Err(e) => Err(e@),
    }
}

impl<T> View for RetryVerdict<T> {
    type V = RetryVerdictView<T>;

    open spec fn view(&self) -> RetryVerdictView<T> {
        match self {
            RetryVerdict::Finish(r) => RetryVerdictView::Finish(outcome_view(*r)),
            RetryVerdict::RetryAfter { delay_ms } => RetryVerdictView::RetryAfter {
                delay_ms: *delay_ms as int,
            },
        }
    }
}

impl RetryPolicyView {
    /// The delay before the attempt that follows attempt number
    /// `attempts_made`, which failed with `e`: the delay that the backend
    /// named where `e` is a rate limit with a hint, and the backoff of the
    /// policy in every other case.
    pub open spec fn retry_delay(self, attempts_made: int, e: GeweNoticeErrorView, jitter: int) -> int {
        match e {
            GeweNoticeErrorView::Business(
                ApiBusinessErrorView::RateLimited { retry_after_ms: Some(hint) },
            ) => hint as int,
            _ => self.backoff(attempts_made, jitter),
        }
    }

    /// What follows attempt number `attempts_made` that ended in `outcome`:
    /// a success ends the delivery, and so does a failure that is not
    /// retryable or that used up the last attempt; any other failure is
    /// retried after the delay that `retry_delay` gives.
    pub open spec fn verdict<T>(
        self,
        attempts_made: int,
        outcome: Result<T, GeweNoticeErrorView>,
        jitter: int,
    ) -> RetryVerdictView<T> {
        match outcome {
            Ok(v) => RetryVerdictView::Finish(Ok(v)),
            Err(e) => if e.is_retryable() && attempts_made < self.max_retries {
                RetryVerdictView::RetryAfter { delay_ms: self.retry_delay(attempts_made, e, jitter) }
            } else {
                RetryVerdictView::Finish(Err(e))
            },
        }
    }
}

impl RetryPolicy {
    /// Whether the policy allows a first attempt.
    pub fn allows_attempt(&self) -> (r: bool)
        ensures
            r == (self@.max_retries > 0),
    {
        self.max_retries > 0
    }

    /// The failure of a delivery that was allowed no attempt.
    pub fn exhausted() -> (e: GeweNoticeError)
        ensures
            e@ == GeweNoticeErrorView::Network(
                NetworkErrorView::HttpError { status: 0, body: Some(RETRIES_EXHAUSTED@) },
            ),
    {
        GeweNoticeError::Network(
            NetworkError::HttpError { status: 0, body: Some(RETRIES_EXHAUSTED.to_string()) },
        )
    }

    /// Judges attempt number `attempts_made`, which ended in `outcome`, with
    /// the random draw `draw` for the jitter.
    pub fn judge<T>(&self, attempts_made: u8, outcome: Result<T, GeweNoticeError>, draw: u32) -> (r:
        RetryVerdict<T>)
        requires
            attempts_made >= 1,
        ensures
            r@ == self@.verdict(attempts_made as int, outcome_view(outcome), jitter_of(draw)),
    {
        match outcome {
            Ok(v) => RetryVerdict::Finish(Ok(v)),
            Err(e) => {
                if e.is_retryable() && attempts_made < self.max_retries {
                    let delay_ms = match &e {
                        GeweNoticeError::Business(
                            ApiBusinessError::RateLimited { retry_after_ms: Some(hint) },
                        ) => *hint,
                        _ => self.backoff_for(attempts_made, draw),
                    };
                    RetryVerdict::RetryAfter { delay_ms }
                } else {
                    RetryVerdict::Finish(Err(e))
                }
            },
        }
    }

    /// Judges attempt number `attempts_made`, which ended in `outcome`, with
    /// a jitter factor drawn at random.
    pub fn after_attempt<T>(&self, attempts_made: u8, outcome: Result<T, GeweNoticeError>) -> (r:
        RetryVerdict<T>)
        requires
            attempts_made >= 1,
        ensures
            exists|draw: u32|
                r@ == self@.verdict(attempts_made as int, outcome_view(outcome), jitter_of(draw)),
    {
        let draw = random_u32();
        self.judge(attempts_made, outcome, draw)
    }
}

/// A delivery is retried only after a retryable failure and only while
/// attempts remain; a success, a fatal failure and every other failure that
/// is not retryable end it at once, whatever the jitter. After a rate limit
/// with a hint the delay is the hint; after any other retryable failure it
/// is the backoff, which never exceeds the largest delay.
pub proof fn lemma_retry_only_when_allowed<T>(
    policy: RetryPolicyView,
    attempts_made: int,
    outcome: Result<T, GeweNoticeErrorView>,
    jitter: int,
)
    ensures
        policy.verdict(attempts_made, outcome, jitter) is RetryAfter <==> (outcome matches Err(e)
            && e.is_retryable() && attempts_made < policy.max_retries),
        outcome matches Err(e) && e.is_fatal() ==> policy.verdict(attempts_made, outcome, jitter)
            == RetryVerdictView::Finish(outcome),
        outcome is Ok ==> policy.verdict(attempts_made, outcome, jitter) == RetryVerdictView::Finish(
            outcome,
        ),
        forall|hint: u64|
            attempts_made < policy.max_retries && outcome == Err::<T, GeweNoticeErrorView>(
                GeweNoticeErrorView::Business(
                    ApiBusinessErrorView::RateLimited { retry_after_ms: Some(hint) },
                ),
            ) ==> policy.verdict(attempts_made, outcome, jitter) == (RetryVerdictView::<
                T,
            >::RetryAfter { delay_ms: hint as int }),
{
}

} // verus!
