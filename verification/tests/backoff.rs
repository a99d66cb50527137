use fe2io::config::Config;
use fe2io::connection::{
    connect_step, connect_to_server, delay_reconnect, reconnect_to_server, Backoff, ConnectAction,
    ConnectEvent,
};
use fe2io::error::Fe2IoError;

fn config(delay: u64, backoff: u64, max_delay: u64, attempts: u64) -> Config {
    Config::new(
        "player".to_string(),
        "ws://client.fe2.io:8081".to_string(),
        0.5f32.to_bits(),
        delay,
        max_delay,
        backoff,
        attempts,
    )
    .unwrap()
}

fn open() -> ConnectAction {
    ConnectAction::Open { url: "ws://client.fe2.io:8081".to_string() }
}

fn refused() -> ConnectEvent {
    ConnectEvent::Refused("connection refused".to_string())
}

/// Feeds consecutive refusals until the procedure gives up; returns the waits.
fn waits_until_failure(config: &Config) -> (Vec<u64>, ConnectAction) {
    let (mut backoff, mut action) = connect_to_server(config);
    let mut waits = Vec::new();
    loop {
        match action {
            ConnectAction::Open { .. } => {
                let (next, answer) = connect_step(config, backoff, refused());
                backoff = next;
                action = answer;
            }
            ConnectAction::Wait { seconds, .. } => {
                waits.push(seconds);
                let (next, answer) = connect_step(config, backoff, ConnectEvent::Waited);
                backoff = next;
                action = answer;
            }
            other => return (waits, other),
        }
    }
}

#[test]
fn three_failures_wait_then_fourth_is_fatal() {
    let config = config(5, 2, 30, 3);
    let (mut backoff, action) = connect_to_server(&config);
    assert_eq!(action, open());
    assert_eq!(backoff, Backoff { delay: 5, retries: 0 });
    let mut waits = Vec::new();
    for _ in 0..3 {
        let (next, action) = connect_step(&config, backoff, refused());
        backoff = next;
        match action {
            ConnectAction::Wait { seconds, .. } => waits.push(seconds),
            other => panic!("expected a wait, got {:?}", other),
        }
        let (next, action) = connect_step(&config, backoff, ConnectEvent::Waited);
        backoff = next;
        assert_eq!(action, open());
    }
    assert_eq!(waits, vec![5, 10, 20]);
    let (after, action) = connect_step(&config, backoff, refused());
    assert_eq!(action, ConnectAction::Fail(Fe2IoError::NoRetry));
    assert_eq!(after, backoff);
}

#[test]
fn waits_follow_the_capped_power() {
    let config = config(3, 3, 100, 6);
    let (waits, end) = waits_until_failure(&config);
    assert_eq!(waits, vec![3, 9, 27, 81, 100, 100]);
    assert_eq!(end, ConnectAction::Fail(Fe2IoError::NoRetry));
}

#[test]
fn kth_wait_is_min_of_power_and_cap() {
    let config = config(2, 5, 1000, 8);
    let (waits, _) = waits_until_failure(&config);
    assert_eq!(waits.len(), 8);
    for (index, wait) in waits.iter().enumerate() {
        let ideal = 2u64.saturating_mul(5u64.saturating_pow(index as u32)).min(1000);
        assert_eq!(*wait, ideal);
    }
}

#[test]
fn multiplier_one_keeps_the_delay() {
    let config = config(7, 1, 60, 4);
    let (waits, end) = waits_until_failure(&config);
    assert_eq!(waits, vec![7, 7, 7, 7]);
    assert_eq!(end, ConnectAction::Fail(Fe2IoError::NoRetry));
}

#[test]
fn product_beyond_the_machine_word_is_capped() {
    let config = config(u64::MAX / 2, 3, u64::MAX, 3);
    let (waits, _) = waits_until_failure(&config);
    assert_eq!(waits, vec![u64::MAX / 2, u64::MAX, u64::MAX]);
}

#[test]
fn wait_names_the_attempt_and_the_budget() {
    let config = config(5, 2, 30, 3);
    let (backoff, _) = connect_to_server(&config);
    let (backoff, first) = connect_step(&config, backoff, refused());
    assert_eq!(first, ConnectAction::Wait { seconds: 5, attempt: 1, attempts: 3 });
    let (_, second) = connect_step(&config, backoff, refused());
    assert_eq!(second, ConnectAction::Wait { seconds: 10, attempt: 2, attempts: 3 });
}

#[test]
fn exhausted_procedure_stays_exhausted() {
    let config = config(5, 2, 30, 1);
    let (backoff, _) = connect_to_server(&config);
    let (backoff, _) = connect_step(&config, backoff, refused());
    for _ in 0..5 {
        let (after, action) = connect_step(&config, backoff, refused());
        assert_eq!(action, ConnectAction::Fail(Fe2IoError::NoRetry));
        assert_eq!(after, backoff);
    }
}

#[test]
fn malformed_address_is_fatal_at_once() {
    let config = config(5, 2, 30, 3);
    let (backoff, _) = connect_to_server(&config);
    let (after, action) =
        connect_step(&config, backoff, ConnectEvent::BadEndpoint("URL error: no host".to_string()));
    assert_eq!(action, ConnectAction::Fail(Fe2IoError::Url("URL error: no host".to_string())));
    assert_eq!(after, backoff);
}

#[test]
fn open_transport_is_greeted_and_then_ready() {
    let config = config(5, 2, 30, 3);
    let (backoff, action) = connect_to_server(&config);
    assert_eq!(action, open());
    let (backoff, action) = connect_step(&config, backoff, ConnectEvent::Opened);
    assert_eq!(action, ConnectAction::Greet { identity: "player".to_string() });
    let (backoff, action) = connect_step(&config, backoff, ConnectEvent::Greeted);
    assert_eq!(action, ConnectAction::Done);
    assert_eq!(backoff, Backoff { delay: 5, retries: 0 });
}

#[test]
fn failed_greeting_is_retried_like_a_refusal() {
    let config = config(5, 2, 30, 2);
    let (backoff, _) = connect_to_server(&config);
    let (backoff, _) = connect_step(&config, backoff, ConnectEvent::Opened);
    let (backoff, action) =
        connect_step(&config, backoff, ConnectEvent::GreetingFailed("broken pipe".to_string()));
    assert_eq!(action, ConnectAction::Wait { seconds: 5, attempt: 1, attempts: 2 });
    let (backoff, action) = connect_step(&config, backoff, ConnectEvent::Waited);
    assert_eq!(action, open());
    let (backoff, action) = connect_step(&config, backoff, refused());
    assert_eq!(action, ConnectAction::Wait { seconds: 10, attempt: 2, attempts: 2 });
    let (_, action) =
        connect_step(&config, backoff, ConnectEvent::GreetingFailed("broken pipe".to_string()));
    assert_eq!(action, ConnectAction::Fail(Fe2IoError::NoRetry));
}

#[test]
fn reconnect_starts_the_policy_afresh() {
    let config = config(5, 2, 30, 3);
    let (backoff, _) = connect_to_server(&config);
    let (used, _) = connect_step(&config, backoff, refused());
    assert_eq!(used, Backoff { delay: 10, retries: 1 });
    let (fresh, action) = reconnect_to_server(&config);
    assert_eq!(fresh, Backoff { delay: 5, retries: 0 });
    assert_eq!(action, open());
}

#[test]
fn delay_reconnect_grows_the_delay_and_counts() {
    let config = config(5, 2, 30, 3);
    assert_eq!(delay_reconnect(5, 0, &config), Ok((10, 1)));
    assert_eq!(delay_reconnect(10, 1, &config), Ok((20, 2)));
    assert_eq!(delay_reconnect(20, 2, &config), Ok((30, 3)));
    assert_eq!(delay_reconnect(30, 2, &config), Ok((30, 3)));
}

#[test]
fn delay_reconnect_refuses_when_the_budget_is_used() {
    let config = config(5, 2, 30, 3);
    assert_eq!(delay_reconnect(30, 3, &config), Err(Fe2IoError::NoRetry));
    assert_eq!(delay_reconnect(30, 4, &config), Err(Fe2IoError::NoRetry));
    assert_eq!(delay_reconnect(5, u64::MAX, &config), Err(Fe2IoError::NoRetry));
}
