use vstd::prelude::*;
use reqwest_retry::policies::ExponentialBackoff;
use reqwest_retry::{RetryDecision, RetryPolicy, Retryable};
use std::time::SystemTime;

verus! {

#[verifier::external_type_specification]
#[verifier::external_body]
pub struct ExMiddlewareError(reqwest_middleware::Error);

/// How the retry strategy judges the outcome of one attempt.
#[derive(Debug, Clone, Copy, PartialEq, Eq, Structural)]
pub enum RetryClass {
    /// Nothing went wrong that a retry could mend.
    Done,
    /// The failure may go away: the request may be sent again.
    Transient,
    /// The failure will not go away.
    Fatal,
}

/// What the caller does after an attempt.
#[derive(Debug, Clone, Copy, PartialEq, Eq, Structural)]
pub enum Step {
    /// Wait this many milliseconds, then send the request again.
    Wait(u64),
    /// Stop: the last attempt's outcome is final.
    Finish,
}

/// How a response status is judged: server errors, request timeouts and rate
/// limiting are transient, other client errors and unknown statuses are fatal,
/// success needs no retry.
pub open spec fn status_class(status: u16) -> RetryClass {
    if 500 <= status && status <= 599 {
        RetryClass::Transient
    } else if 400 <= status && status <= 499 && status != 408 && status != 429 {
        RetryClass::Fatal
    } else if 200 <= status && status <= 299 {
        RetryClass::Done
    } else if status == 408 || status == 429 {
        RetryClass::Transient
    } else {
        RetryClass::Fatal
    }
}

/// Whether a request is sent again after its `attempts`-th attempt was judged
/// `class`, with a budget of `max_retries` retries.
pub open spec fn retries_after(class: RetryClass, attempts: nat, max_retries: nat) -> bool {
    class == RetryClass::Transient && attempts <= max_retries
}

/// How many attempts are made when the server answers attempt `i` with
/// `statuses[i]`, counting on from `k` attempts already made.
pub open spec fn attempts_made(statuses: Seq<u16>, max_retries: nat, k: nat) -> nat
    decreases statuses.len() - k,
{
    if k >= statuses.len() {
        k
    } else if retries_after(status_class(statuses[k as int]), k + 1, max_retries) {
        attempts_made(statuses, max_retries, k + 1)
    } else {
        k + 1
    }
}

/// Relies on `reqwest_retry::default_on_request_success`, which judges a
/// response by its status alone, as `status_class` states.
#[verifier::external_body]
fn classify_status(status: u16) -> (r: RetryClass)
    requires
        100 <= status <= 999,
    ensures
        r == status_class(status),
{
    let response = http::Response::builder().status(status).body(Vec::<u8>::new()).unwrap();
    match reqwest_retry::default_on_request_success(&reqwest::Response::from(response)) {
        None => RetryClass::Done,
        Some(Retryable::Transient) => RetryClass::Transient,
        Some(Retryable::Fatal) => RetryClass::Fatal,
    }
}

/// How `reqwest_retry::default_on_request_failure` judges a failed request;
/// it depends on the error alone.
pub uninterp spec fn failure_class(e: reqwest_middleware::Error) -> RetryClass;

/// Relies on `reqwest_retry::default_on_request_failure`: whether a request
/// that failed without a response may be sent again.
#[verifier::external_body]
fn classify_failure(e: &reqwest_middleware::Error) -> (r: RetryClass)
    ensures
        r == failure_class(*e),
{
    match reqwest_retry::default_on_request_failure(e) {
        None => RetryClass::Done,
        Some(Retryable::Transient) => RetryClass::Transient,
        Some(Retryable::Fatal) => RetryClass::Fatal,
    }
}

/// Relies on `ExponentialBackoff::should_retry` of the policy that
/// `build_with_max_retries(max_retries)` builds: no retry once
/// `n_past_retries` reaches `max_retries`, else a wait that depends on the
/// clock and on random jitter.
#[verifier::external_body]
fn backoff_wait(max_retries: u32, n_past_retries: u32) -> (r: Option<u64>)
    ensures
        r is None <==> max_retries <= n_past_retries,
{
    let policy = ExponentialBackoff::builder().build_with_max_retries(max_retries);
    match policy.should_retry(SystemTime::now(), n_past_retries) {
        RetryDecision::Retry { execute_after } => Some(
            execute_after.duration_since(SystemTime::now()).unwrap_or_default().as_millis() as u64,
        ),
        RetryDecision::DoNotRetry => None,
    }
}

/// The retry state of one request, as mathematics.
pub struct RetrierView {
    pub max_retries: nat,
    pub attempts: nat,
}

/// Decides, attempt by attempt, whether a request is sent again.
pub struct Retrier {
    max_retries: u32,
    attempts: u64,
}

impl View for Retrier {
    type V = RetrierView;

    closed spec fn view(&self) -> RetrierView {
        RetrierView { max_retries: self.max_retries as nat, attempts: self.attempts as nat }
    }
}

impl Retrier {
    /// A retrier for a request that has not been sent yet.
    pub fn new(max_retries: u32) -> (r: Retrier)
        ensures
            r@.max_retries == max_retries,
            r@.attempts == 0,
    {
        Retrier { max_retries, attempts: 0 }
    }

    /// How many attempts were judged so far.
    pub fn attempts(&self) -> (r: u64)
        ensures
            r == self@.attempts,
    {
        self.attempts
    }

    /// Judges one more attempt whose outcome was classed `class`.
    pub fn on_class(&mut self, class: RetryClass) -> (r: Step)
        requires
            old(self)@.attempts <= old(self)@.max_retries,
        ensures
            final(self)@.max_retries == old(self)@.max_retries,
            final(self)@.attempts == old(self)@.attempts + 1,
            (r is Wait) == retries_after(class, final(self)@.attempts, final(self)@.max_retries),
    {
        let n_past = self.attempts as u32;
        self.attempts = self.attempts + 1;
        match class {
            RetryClass::Transient => match backoff_wait(self.max_retries, n_past) {
                Some(ms) => Step::Wait(ms),
                None => Step::Finish,
            },
            _ => Step::Finish,
        }
    }

    /// Judges one more attempt that got a response with `status`.
    pub fn on_status(&mut self, status: u16) -> (r: Step)
        requires
            old(self)@.attempts <= old(self)@.max_retries,
        ensures
            final(self)@.max_retries == old(self)@.max_retries,
            final(self)@.attempts == old(self)@.attempts + 1,
            (r is Wait) == retries_after(
                status_class(status),
                final(self)@.attempts,
                final(self)@.max_retries,
            ),
    {
        let class = if 100 <= status && status <= 999 {
            classify_status(status)
        } else {
            RetryClass::Fatal
        };
        self.on_class(class)
    }

    /// Judges one more attempt that failed without a response, by the class
    /// that the retry strategy gives the failure.
    pub fn on_failure(&mut self, e: &reqwest_middleware::Error) -> (r: Step)
        requires
            old(self)@.attempts <= old(self)@.max_retries,
        ensures
            final(self)@.max_retries == old(self)@.max_retries,
            final(self)@.attempts == old(self)@.attempts + 1,
            (r is Wait) == retries_after(
                failure_class(*e),
                final(self)@.attempts,
                final(self)@.max_retries,
            ),
    {
        let class = classify_failure(e);
        self.on_class(class)
    }
}

/// Runs a retrier against a server that answers attempt `i` with
/// `statuses[i]`, and returns how many attempts it made.
pub fn attempts_against(statuses: &Vec<u16>, max_retries: u32) -> (r: u64)
    ensures
        r == attempts_made(statuses@, max_retries as nat, 0),
{
    let mut retrier = Retrier::new(max_retries);
    let mut k: usize = 0;
    while k < statuses.len()
        invariant
            k <= statuses.len(),
            k <= max_retries,
            retrier@.attempts == k,
            retrier@.max_retries == max_retries,
            attempts_made(statuses@, max_retries as nat, 0) == attempts_made(
                statuses@,
                max_retries as nat,
                k as nat,
            ),
        decreases statuses.len() - k,
    {
        match retrier.on_status(statuses[k]) {
            Step::Wait(_) => {
                k = k + 1;
            },
            Step::Finish => {
                return retrier.attempts();
            },
        }
    }
    k as u64
}

/// A status that is not transient ends the request after its first attempt:
/// a client error such as 404 is never retried.
pub proof fn lemma_fatal_status_not_retried(statuses: Seq<u16>, max_retries: nat)
    requires
        statuses.len() > 0,
        status_class(statuses[0]) != RetryClass::Transient,
    ensures
        attempts_made(statuses, max_retries, 0) == 1,
{
}

/// When every answer is transient, the request is sent exactly
/// `max_retries + 1` times.
pub proof fn lemma_transient_exhausts_budget(statuses: Seq<u16>, max_retries: nat)
    requires
        statuses.len() > max_retries,
        forall|i: int| 0 <= i < statuses.len() ==> status_class(#[trigger] statuses[i])
            == RetryClass::Transient,
    ensures
        attempts_made(statuses, max_retries, 0) == max_retries + 1,
{
    lemma_transient_from(statuses, max_retries, 0);
}

proof fn lemma_transient_from(statuses: Seq<u16>, max_retries: nat, k: nat)
    requires
        k <= max_retries,
        statuses.len() > max_retries,
        forall|i: int| 0 <= i < statuses.len() ==> status_class(#[trigger] statuses[i])
            == RetryClass::Transient,
    ensures
        attempts_made(statuses, max_retries, k) == max_retries + 1,
    decreases max_retries - k,
{
    assert(status_class(statuses[k as int]) == RetryClass::Transient);
    if k < max_retries {
        lemma_transient_from(statuses, max_retries, k + 1);
    }
}

} // verus!
