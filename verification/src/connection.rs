//! The connection manager: when to open the connection, when to greet, how
//! long to wait after a failure, and when to give up.
//!
//! The caller opens sockets and sleeps. After each of its steps it reports
//! what happened and is told what to do next.

use crate::config::{Config, ConfigView};
use crate::error::{ErrorView, Fe2IoError};
use vstd::arithmetic::power::{lemma_pow_positive, pow};
use vstd::prelude::*;

verus! {

/// Where the retry policy stands.
#[derive(Clone, Copy, Debug, PartialEq, Eq, Structural)]
pub struct Backoff {
    /// Seconds that the next wait takes.
    pub delay: u64,
    /// Waits made so far.
    pub retries: u64,
}

/// What the caller reports after carrying out a `ConnectAction`.
#[derive(Debug, PartialEq, Eq)]
pub enum ConnectEvent {
    /// The transport is open.
    Opened,
    /// The transport could not be opened; a later attempt may succeed.
    Refused(String),
    /// The transport could not be opened because the address is malformed.
    BadEndpoint(String),
    /// The identity frame was sent.
    Greeted,
    /// The identity frame could not be sent.
    GreetingFailed(String),
    /// The wait is over.
    Waited,
}

/// A `ConnectEvent` as mathematical values.
pub enum ConnectEventView {
    Opened,
    Refused(Seq<char>),
    BadEndpoint(Seq<char>),
    Greeted,
    GreetingFailed(Seq<char>),
    Waited,
}

impl View for ConnectEvent {
    type V = ConnectEventView;

    open spec fn view(&self) -> ConnectEventView {
        match self {
            ConnectEvent::Opened => ConnectEventView::Opened,
            ConnectEvent::Refused(detail) => ConnectEventView::Refused(detail@),
            ConnectEvent::BadEndpoint(detail) => ConnectEventView::BadEndpoint(detail@),
            ConnectEvent::Greeted => ConnectEventView::Greeted,
            ConnectEvent::GreetingFailed(detail) => ConnectEventView::GreetingFailed(detail@),
            ConnectEvent::Waited => ConnectEventView::Waited,
        }
    }
}

/// What the caller has to do next.
#[derive(Debug, PartialEq, Eq)]
pub enum ConnectAction {
    /// Open the transport to this address.
    Open { url: String },
    /// Send one text frame that holds this identity on the open transport.
    Greet { identity: String },
    /// Warn that attempt `attempt` of `attempts` failed, then sleep.
    Wait { seconds: u64, attempt: u64, attempts: u64 },
    /// The connection is ready for reading.
    Done,
    /// Give up with this fatal condition.
    Fail(Fe2IoError),
}

/// A `ConnectAction` as mathematical values.
pub enum ConnectActionView {
    Open { url: Seq<char> },
    Greet { identity: Seq<char> },
    Wait { seconds: u64, attempt: u64, attempts: u64 },
    Done,
    Fail(ErrorView),
}

impl View for ConnectAction {
    type V = ConnectActionView;

    open spec fn view(&self) -> ConnectActionView {
        match self {
            ConnectAction::Open { url } => ConnectActionView::Open { url: url@ },
            ConnectAction::Greet { identity } => ConnectActionView::Greet { identity: identity@ },
            ConnectAction::Wait { seconds, attempt, attempts } => ConnectActionView::Wait {
                seconds: *seconds,
                attempt: *attempt,
                attempts: *attempts,
            },
            ConnectAction::Done => ConnectActionView::Done,
            ConnectAction::Fail(error) => ConnectActionView::Fail(error@),
        }
    }
}

/// `delay * backoff`, but never more than `max_delay`.
pub open spec fn capped_product(delay: int, backoff: int, max_delay: int) -> int {
    if delay * backoff <= max_delay {
        delay * backoff
    } else {
        max_delay
    }
}

/// The state in which every connection procedure starts.
pub open spec fn initial_backoff(config: ConfigView) -> Backoff {
    Backoff { delay: config.delay, retries: 0 }
}

/// The answer to a failure that a retry may cure.
///
/// While retries are left, the caller waits the current delay; the delay then
/// grows by the multiplier up to the cap, and one more retry is used. Once
/// the allowed retries are used up the answer is `NoRetry` and the state
/// stays as it is.
pub open spec fn retry_spec(config: ConfigView, backoff: Backoff) -> (Backoff, ConnectActionView) {
    if backoff.retries >= config.attempts {
        (backoff, ConnectActionView::Fail(ErrorView::NoRetry))
    } else {
        (
            Backoff {
                delay: capped_product(
                    backoff.delay as int,
                    config.backoff as int,
                    config.max_delay as int,
                ) as u64,
                retries: (backoff.retries + 1) as u64,
            },
            ConnectActionView::Wait {
                seconds: backoff.delay,
                attempt: (backoff.retries + 1) as u64,
                attempts: config.attempts,
            },
        )
    }
}

/// The answer to each report of the caller.
pub open spec fn connect_step_spec(
    config: ConfigView,
    backoff: Backoff,
    event: ConnectEventView,
) -> (Backoff, ConnectActionView) {
    match event {
        ConnectEventView::Opened => (
            backoff,
            ConnectActionView::Greet { identity: config.username },
        ),
        ConnectEventView::Greeted => (backoff, ConnectActionView::Done),
        ConnectEventView::Waited => (backoff, ConnectActionView::Open { url: config.url }),
        ConnectEventView::BadEndpoint(detail) => (
            backoff,
            ConnectActionView::Fail(ErrorView::Url(detail)),
        ),
        ConnectEventView::Refused(_) => retry_spec(config, backoff),
        ConnectEventView::GreetingFailed(_) => retry_spec(config, backoff),
    }
}

/// Starts a connection procedure: the first thing to do is to open the
/// transport to the configured address.
pub fn connect_to_server(config: &Config) -> (start: (Backoff, ConnectAction))
    ensures
        start.0 == initial_backoff(config@),
        start.1@ == (ConnectActionView::Open { url: config@.url }),
{
    (Backoff { delay: config.delay(), retries: 0 }, ConnectAction::Open { url: config.url().clone() })
}

/// Starts a connection procedure after an established connection was lost.
/// The retry policy starts afresh.
pub fn reconnect_to_server(config: &Config) -> (start: (Backoff, ConnectAction))
    ensures
        start.0 == initial_backoff(config@),
        start.1@ == (ConnectActionView::Open { url: config@.url }),
{
    connect_to_server(config)
}

/// Decides whether another retry is allowed after a failure and, if so, what
/// the delay and the retry count are once the current delay has been waited.
pub fn delay_reconnect(delay: u64, retries: u64, config: &Config) -> (next: Result<
    (u64, u64),
    Fe2IoError,
>)
    ensures
        match next {
            Ok((next_delay, next_retries)) => {
                &&& retries < config@.attempts
                &&& next_delay == capped_product(
                    delay as int,
                    config@.backoff as int,
                    config@.max_delay as int,
                )
                &&& next_retries == retries + 1
            },
            Err(error) => retries >= config@.attempts && error@ == ErrorView::NoRetry,
        },
{
    if retries >= config.attempts() {
        return Err(Fe2IoError::NoRetry);
    }
    let next_delay: u64 = match delay.checked_mul(config.backoff()) {
        Some(product) => if product <= config.max_delay() {
            product
        } else {
            config.max_delay()
        },
        None => config.max_delay(),
    };
    Ok((next_delay, retries + 1))
}

/// Answers a failure that a retry may cure.
fn retry(config: &Config, backoff: Backoff) -> (step: (Backoff, ConnectAction))
    ensures
        (step.0, step.1@) == retry_spec(config@, backoff),
{
    match delay_reconnect(backoff.delay, backoff.retries, config) {
        Ok((delay, retries)) => (
            Backoff { delay, retries },
            ConnectAction::Wait {
                seconds: backoff.delay,
                attempt: retries,
                attempts: config.attempts(),
            },
        ),
        Err(error) => (backoff, ConnectAction::Fail(error)),
    }
}

/// Takes the caller's report on the last action and returns the next one.
///
/// An open transport is greeted with the configured identity, and after the
/// greeting the connection is ready. A malformed address is fatal at once.
/// A refused connection and a failed greeting are both answered by the
/// retry policy, and after a wait the transport is opened again.
pub fn connect_step(config: &Config, backoff: Backoff, event: ConnectEvent) -> (step: (
    Backoff,
    ConnectAction,
))
    ensures
        (step.0, step.1@) == connect_step_spec(config@, backoff, event@),
{
    match event {
        ConnectEvent::Opened => (
            backoff,
            ConnectAction::Greet { identity: config.username().clone() },
        ),
        ConnectEvent::Greeted => (backoff, ConnectAction::Done),
        ConnectEvent::Waited => (backoff, ConnectAction::Open { url: config.url().clone() }),
        ConnectEvent::BadEndpoint(detail) => (backoff, ConnectAction::Fail(Fe2IoError::Url(detail))),
        ConnectEvent::Refused(_) => retry(config, backoff),
        ConnectEvent::GreetingFailed(_) => retry(config, backoff),
    }
}

/// The state after `failures` consecutive failures that a retry may cure.
pub open spec fn backoff_after(config: ConfigView, failures: nat) -> Backoff
    decreases failures,
{
    if failures == 0 {
        initial_backoff(config)
    } else {
        retry_spec(config, backoff_after(config, (failures - 1) as nat)).0
    }
}

/// `delay * backoff^waits`, but never more than `max_delay`.
pub open spec fn capped_power(config: ConfigView, waits: nat) -> int {
    let grown = config.delay * pow(config.backoff as int, waits);
    if grown <= config.max_delay {
        grown
    } else {
        config.max_delay as int
    }
}

/// While retries are left, the state after `failures` failures holds the
/// initial delay times the multiplier to the power `failures`, capped.
proof fn lemma_backoff_after(config: ConfigView, failures: nat)
    requires
        config.wf(),
        failures <= config.attempts,
    ensures
        backoff_after(config, failures).retries == failures,
        backoff_after(config, failures).delay == capped_power(config, failures),
    decreases failures,
{
    let d = config.delay as int;
    let m = config.backoff as int;
    let c = config.max_delay as int;
    if failures == 0 {
        assert(pow(m, 0) == 1) by {
            reveal(pow);
        }
    } else {
        let before = (failures - 1) as nat;
        lemma_backoff_after(config, before);
        let p = pow(m, before);
        assert(pow(m, failures) == m * p) by {
            reveal(pow);
        }
        let grown = d * p;
        assert(d * (m * p) == (d * p) * m) by (nonlinear_arith);
        if grown <= c {
        } else {
            assert(grown * m >= grown) by (nonlinear_arith)
                requires
                    m >= 1,
                    grown >= 0,
            ;
            assert(c * m >= c) by (nonlinear_arith)
                requires
                    m >= 1,
                    c >= 0,
            ;
        }
    }
}

/// The backoff sequence. For `1 <= k <= attempts`, the `k`-th consecutive
/// failure is answered by a wait of `min(delay * backoff^(k-1), max_delay)`
/// seconds. Every later failure is answered by `NoRetry`, and the state no
/// longer moves: no further wait or attempt is asked for.
pub proof fn lemma_backoff_sequence(config: ConfigView, k: nat)
    requires
        config.wf(),
        k >= 1,
    ensures
        k <= config.attempts ==> retry_spec(config, backoff_after(config, (k - 1) as nat)).1
            == (ConnectActionView::Wait {
            seconds: capped_power(config, (k - 1) as nat) as u64,
            attempt: k as u64,
            attempts: config.attempts,
        }),
        k <= config.attempts ==> 0 < capped_power(config, (k - 1) as nat) <= config.max_delay,
        k > config.attempts ==> retry_spec(config, backoff_after(config, (k - 1) as nat)) == (
            backoff_after(config, (k - 1) as nat),
            ConnectActionView::Fail(ErrorView::NoRetry),
        ),
        k > config.attempts ==> backoff_after(config, k) == backoff_after(
            config,
            config.attempts as nat,
        ),
    decreases k,
{
    if k <= config.attempts {
        lemma_backoff_after(config, (k - 1) as nat);
        let d = config.delay as int;
        let p = pow(config.backoff as int, (k - 1) as nat);
        assert(p > 0) by {
            lemma_pow_positive(config.backoff as int, (k - 1) as nat);
        }
        assert(d * p > 0) by (nonlinear_arith)
            requires
                d > 0,
                p > 0,
        ;
    } else if k == config.attempts + 1 {
        lemma_backoff_after(config, (k - 1) as nat);
    } else {
        lemma_backoff_sequence(config, (k - 1) as nat);
    }
}

/// The connection procedure gives up in two ways only, and both are fatal:
/// the address is malformed, or the retries are used up. A malformed
/// address is never answered by a wait.
pub proof fn lemma_connect_failures_are_fatal(
    config: ConfigView,
    backoff: Backoff,
    event: ConnectEventView,
)
    ensures
        connect_step_spec(config, backoff, event).1 matches ConnectActionView::Fail(error) ==> {
            &&& error.is_fatal()
            &&& error is Url || error == ErrorView::NoRetry
            &&& connect_step_spec(config, backoff, event).0 == backoff
        },
        event matches ConnectEventView::BadEndpoint(detail) ==> connect_step_spec(
            config,
            backoff,
            event,
        ) == (backoff, ConnectActionView::Fail(ErrorView::Url(detail))),
        event is GreetingFailed ==> connect_step_spec(config, backoff, event) == retry_spec(
            config,
            backoff,
        ),
{
}

} // verus!
