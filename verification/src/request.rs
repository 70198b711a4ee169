//! Request policies: retrying a GraphQL request with exponential backoff,
//! and the token bucket that spaces requests out.
use vstd::prelude::*;
use vstd::arithmetic::power2::pow2;
use crate::error::{AppError, is_other_error, other_error};

verus! {

/// What one attempt of a request came back with.
#[derive(Debug)]
pub enum AttemptOutcome {
    /// A response carrying data.
    Data,
    /// A response without data.
    NoData,
    /// The client failed; the text is the error's display text.
    Failed(String),
}

/// What the retry policy does after an attempt.
#[derive(Debug)]
pub enum RetryAction {
    /// Hand the response's data to the caller.
    Deliver,
    /// Give up with this error.
    Fail(AppError),
    /// Sleep `backoff_ms` milliseconds, then make attempt number
    /// `retries + 1` (the count of retries so far is now `retries`).
    RetryAfter { retries: u32, backoff_ms: u64 },
}

/// The backoff before the `n`-th retry: 2^n seconds, in milliseconds.
pub open spec fn spec_backoff_ms(n: nat) -> nat {
    pow2(n) * 1000
}

/// The message of a response without data.
pub open spec fn spec_no_data_message(is_mutation: bool) -> Seq<char> {
    if is_mutation {
        "GraphQL Client Mutation Response Error"@
    } else {
        "GraphQL Client Query Response Error"@
    }
}

/// The retry policy: data is delivered; a response without data fails; a
/// client error is retried after an exponential backoff while fewer than
/// `max_retries` retries were made, and fails with its own text after that.
pub open spec fn spec_next_step(
    is_mutation: bool,
    retries: u32,
    max_retries: u32,
    outcome: AttemptOutcome,
    action: RetryAction,
) -> bool {
    match outcome {
        AttemptOutcome::Data => action is Deliver,
        AttemptOutcome::NoData => action matches RetryAction::Fail(e) && is_other_error(
            e,
            spec_no_data_message(is_mutation),
        ),
        AttemptOutcome::Failed(text) => if retries < max_retries {
            action matches RetryAction::RetryAfter { retries: n, backoff_ms: b } && n == retries + 1 && b
                == spec_backoff_ms(n as nat)
        } else {
            action matches RetryAction::Fail(e) && is_other_error(e, text@)
        },
    }
}

/// Whether the backoff of the next retry fits in a `u64` (2^n * 1000 for
/// n up to 54).
pub open spec fn spec_retry_fits(retries: u32, max_retries: u32, outcome: AttemptOutcome) -> bool {
    (outcome is Failed && retries < max_retries) ==> retries < 54
}

proof fn lemma_backoff_bound(n: nat)
    requires
        n <= 54,
    ensures
        pow2(n) * 1000 <= u64::MAX,
        pow2(n) >= 1,
{
    vstd::arithmetic::power2::lemma_pow2_pos(n);
    vstd::arithmetic::power2::lemma2_to64();
    assert(pow2(54) == 0x40000000000000) by {
        vstd::arithmetic::power2::lemma2_to64_rest();
    }
    if n < 54 {
        vstd::arithmetic::power2::lemma_pow2_strictly_increases(n, 54);
    }
}

/// 2^n * 1000 for `n <= 54`.
fn backoff_ms(n: u32) -> (b: u64)
    requires
        n <= 54,
    ensures
        b == spec_backoff_ms(n as nat),
{
    let mut p: u64 = 1;
    let mut i: u32 = 0;
    proof {
        vstd::arithmetic::power2::lemma2_to64();
    }
    while i < n
        invariant
            i <= n <= 54,
            p == pow2(i as nat),
        decreases n - i,
    {
        proof {
            vstd::arithmetic::power2::lemma_pow2_unfold((i + 1) as nat);
            lemma_backoff_bound((i + 1) as nat);
        }
        p = p * 2;
        i = i + 1;
    }
    proof {
        lemma_backoff_bound(n as nat);
    }
    p * 1000
}

/// The decision after one attempt of a request (see `spec_next_step`).
pub fn next_step(is_mutation: bool, retries: u32, max_retries: u32, outcome: AttemptOutcome) -> (action:
    RetryAction)
    requires
        spec_retry_fits(retries, max_retries, outcome),
    ensures
        spec_next_step(is_mutation, retries, max_retries, outcome, action),
{
    match outcome {
        AttemptOutcome::Data => RetryAction::Deliver,
        AttemptOutcome::NoData => {
            if is_mutation {
                RetryAction::Fail(other_error("GraphQL Client Mutation Response Error"))
            } else {
                RetryAction::Fail(other_error("GraphQL Client Query Response Error"))
            }
        },
        AttemptOutcome::Failed(text) => {
            if retries < max_retries {
                let n = retries + 1;
                RetryAction::RetryAfter { retries: n, backoff_ms: backoff_ms(n) }
            } else {
                RetryAction::Fail(AppError::OtherError(text))
            }
        },
    }
}

/// A retry never exceeds the allowed number of retries, counts one more
/// retry than before, and waits twice as long as the retry before it.
pub proof fn lemma_retries_bounded_and_doubling(
    is_mutation: bool,
    retries: u32,
    max_retries: u32,
    outcome: AttemptOutcome,
    action: RetryAction,
)
    requires
        spec_next_step(is_mutation, retries, max_retries, outcome, action),
    ensures
        action matches RetryAction::RetryAfter { retries: n, backoff_ms: b } ==> {
            &&& n == retries + 1
            &&& n <= max_retries
            &&& b == 2 * spec_backoff_ms(retries as nat)
        },
{
    if let RetryAction::RetryAfter { retries: n, backoff_ms: b } = action {
        vstd::arithmetic::power2::lemma_pow2_unfold(n as nat);
    }
}

/// Whatever the retry count, a response with data is delivered and a
/// response without data fails at once: only client errors are retried.
pub proof fn lemma_only_client_errors_retry(
    is_mutation: bool,
    retries: u32,
    max_retries: u32,
    outcome: AttemptOutcome,
    action: RetryAction,
)
    requires
        spec_next_step(is_mutation, retries, max_retries, outcome, action),
    ensures
        action is RetryAfter ==> outcome is Failed,
        outcome is Data ==> action is Deliver,
        (outcome is Failed && retries >= max_retries) ==> action is Fail,
{
}

/// A token bucket holding up to `points_per_second` points, refilled in
/// full once per interval.
#[derive(Debug)]
pub struct TokenBucket {
    pub points_per_second: usize,
    pub tokens: usize,
}

impl TokenBucket {
    /// The bucket never holds more than its capacity.
    pub open spec fn wf(&self) -> bool {
        self.tokens <= self.points_per_second
    }

    /// A full bucket.
    pub fn new(points_per_second: usize) -> (b: TokenBucket)
        ensures
            b.wf(),
            b.points_per_second == points_per_second,
            b.tokens == points_per_second,
    {
        TokenBucket { points_per_second, tokens: points_per_second }
    }

    /// First step of a wait, `elapsed` nanoseconds after the last refill
    /// of an `interval`-nanosecond window: refills the bucket when a whole
    /// interval has passed (the caller then restarts the window), and says
    /// how long to sleep when the bucket still lacks `cost` points (the
    /// rest of the interval).
    pub fn begin_wait(&mut self, elapsed: u128, interval: u128, cost: usize) -> (r: (bool, Option<u128>))
        requires
            old(self).wf(),
            !(cost > old(self).points_per_second && elapsed > interval),
        ensures
            final(self).wf(),
            final(self).points_per_second == old(self).points_per_second,
            r.0 == (elapsed >= interval),
            final(self).tokens == if elapsed >= interval {
                old(self).points_per_second
            } else {
                old(self).tokens
            },
            r.1 == if final(self).tokens < cost {
                Some((interval - elapsed) as u128)
            } else {
                None::<u128>
            },
    {
        let refilled = elapsed >= interval;
        if refilled {
            self.tokens = self.points_per_second;
        }
        if self.tokens < cost {
            (refilled, Some(interval - elapsed))
        } else {
            (refilled, None)
        }
    }

    /// Last step of a wait: after a shortage sleep the bucket is full again;
    /// the request then takes `cost` points, or fails with "API rate limit
    /// Exceeded" when the bucket cannot hold that many.
    pub fn finish_wait(&mut self, slept: bool, cost: usize) -> (r: Result<(), AppError>)
        requires
            old(self).wf(),
        ensures
            final(self).wf(),
            final(self).points_per_second == old(self).points_per_second,
            ({
                let available = if slept {
                    old(self).points_per_second
                } else {
                    old(self).tokens
                };
                &&& (r is Ok <==> available >= cost)
                &&& (r is Ok ==> final(self).tokens == available - cost)
                &&& (r is Err ==> final(self).tokens == available)
                &&& (r matches Err(e) ==> is_other_error(e, "API rate limit Exceeded"@))
            }),
    {
        if slept {
            self.tokens = self.points_per_second;
        }
        if self.tokens < cost {
            return Err(other_error("API rate limit Exceeded"));
        }
        self.tokens = self.tokens - cost;
        Ok(())
    }
}

/// A whole wait (refill, shortage sleep, take) refuses a request exactly
/// when its cost exceeds the bucket's capacity, and never leaves more points
/// than the capacity.
pub proof fn lemma_wait_refuses_only_oversized_requests(
    before: TokenBucket,
    elapsed: u128,
    interval: u128,
    cost: usize,
    mid: TokenBucket,
    plan: (bool, Option<u128>),
    after: TokenBucket,
    r: Result<(), AppError>,
)
    requires
        before.wf(),
        mid.wf(),
        mid.points_per_second == before.points_per_second,
        mid.tokens == if elapsed >= interval {
            before.points_per_second
        } else {
            before.tokens
        },
        plan.1 == if mid.tokens < cost {
            Some((interval - elapsed) as u128)
        } else {
            None::<u128>
        },
        after.wf(),
        after.points_per_second == mid.points_per_second,
        ({
            let available = if plan.1 is Some {
                mid.points_per_second
            } else {
                mid.tokens
            };
            &&& (r is Ok <==> available >= cost)
            &&& (r is Ok ==> after.tokens == available - cost)
        }),
    ensures
        r is Err <==> cost > before.points_per_second,
        after.tokens <= before.points_per_second,
{
}

/// GraphQL Admin API points per second, by plan.
pub const SHOPIFY_ENTERPRISE_GRAPHQL_RATE: usize = 2000;
pub const SHOPIFY_PLUS_GRAPHQL_RATE: usize = 1000;
pub const SHOPIFY_ADVANCED_GRAPHQL_RATE: usize = 200;
pub const SHOPIFY_STANDARD_GRAPHQL_RATE: usize = 100;

/// REST Admin API requests per second, by plan.
pub const SHOPIFY_ENTERPRISE_REST_RATE: usize = 40;
pub const SHOPIFY_PLUS_REST_RATE: usize = 20;
pub const SHOPIFY_ADVANCED_REST_RATE: usize = 4;
pub const SHOPIFY_STANDARD_REST_RATE: usize = 2;

/// Payments Apps API points per second, by plan.
pub const SHOPIFY_ENTERPRISE_PAYMENTS_RATE: usize = 3640;
pub const SHOPIFY_PLUS_PAYMENTS_RATE: usize = 1820;
pub const SHOPIFY_ADVANCED_PAYMENTS_RATE: usize = 910;
pub const SHOPIFY_STANDARD_PAYMENTS_RATE: usize = 910;

/// Customer Account API points per second, by plan.
pub const SHOPIFY_ENTERPRISE_CUSTOMER_RATE: usize = 400;
pub const SHOPIFY_PLUS_CUSTOMER_RATE: usize = 200;
pub const SHOPIFY_ADVANCED_CUSTOMER_RATE: usize = 200;
pub const SHOPIFY_STANDARD_CUSTOMER_RATE: usize = 100;

/// The cost every request is assumed to have.
pub const DEFAULT_REQUEST_COST: usize = 10;

/// How many times a request is retried after a client error.
pub const DEFAULT_MAX_RETRIES: u32 = 3;

} // verus!
