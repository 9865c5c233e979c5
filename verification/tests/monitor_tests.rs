use exit_monitor::errors::ErrorKind;
use exit_monitor::monitor::{resolve_balance, Action, Monitor, State};
use exit_monitor::request::{AccountId, SellRequest};
use exit_monitor::threshold::{default_lower, default_upper, Multiplier, Verdict};

fn account(tag: u8) -> AccountId {
    AccountId { bytes: [tag; 32] }
}

fn request(baseline: u64) -> SellRequest {
    SellRequest {
        amm_pool: account(1),
        input_mint: account(2),
        output_mint: account(3),
        sol_vault: account(4),
        sol_pooled_when_bought: baseline,
    }
}

fn watching_monitor(baseline: u64, amount: u64) -> Monitor {
    let mut m = Monitor::new(request(baseline), default_upper(), default_lower(), amount)
        .expect("positive baseline");
    assert_eq!(m.state, State::Idle);
    assert_eq!(m.start(), Action::Subscribe);
    assert_eq!(m.state, State::Subscribing);
    assert_eq!(m.on_subscribed(), Action::AwaitObservation);
    assert_eq!(m.state, State::Watching);
    m
}

#[test]
fn zero_baseline_request_is_rejected() {
    let r = Monitor::new(request(0), default_upper(), default_lower(), 1);
    assert_eq!(r, Err(ErrorKind::InvalidBaseline));
}

#[test]
fn observations_ninety_hundred_185_complete_with_one_trigger() {
    // baseline 100: verdicts Continue, Continue, ExitHigh.
    let mut m = watching_monitor(100, 4242);
    assert_eq!(m.on_observation(90), Action::AwaitObservation);
    assert_eq!(m.state, State::Watching);
    assert_eq!(m.on_observation(100), Action::AwaitObservation);
    assert_eq!(m.state, State::Watching);
    assert_eq!(m.on_observation(185), Action::Decide);
    assert_eq!(m.state, State::Deciding);
    assert_eq!(m.fired, Verdict::ExitHigh);
    assert_eq!(m.decide(), Action::ReleaseAndTrigger);
    assert_eq!(m.state, State::Triggering);
    // The exit action gets the original request's asset pair and the amount
    // looked up before the watch.
    let (req, amount) = m.trigger_context();
    assert_eq!(req, request(100));
    assert_eq!(req.input_mint, account(2));
    assert_eq!(req.output_mint, account(3));
    assert_eq!(amount, 4242);
    assert_eq!(m.on_trigger_result(true), Action::Stop);
    assert_eq!(m.state, State::Completed);
    assert_eq!(m.triggers, 1);
    assert_eq!(m.releases, 1);
}

#[test]
fn single_low_observation_exits_low_and_completes() {
    // baseline 100: observation 60 is at or below 75, so ExitLow.
    let mut m = watching_monitor(100, 7);
    assert_eq!(m.on_observation(60), Action::Decide);
    assert_eq!(m.fired, Verdict::ExitLow);
    assert_eq!(m.decide(), Action::ReleaseAndTrigger);
    assert_eq!(m.on_trigger_result(true), Action::Stop);
    assert_eq!(m.state, State::Completed);
    assert_eq!(m.triggers, 1);
    assert_eq!(m.releases, 1);
}

#[test]
fn trigger_fires_on_third_observation_and_fourth_is_never_evaluated() {
    // baseline 1000 with stream [0.5B, 0.9B, 1.9B, 2.5B]: the third
    // observation is the first at or above 1.8B. The lower threshold is set
    // to 0.4 here so that the early low observations keep the watch alive;
    // with the default 0.75 the first observation already fires low (see
    // the companion test below).
    let mut m = Monitor::new(request(1000), default_upper(), Multiplier { num: 2, den: 5 }, 1)
        .expect("positive baseline");
    m.start();
    m.on_subscribed();
    let obs = vec![500u64, 900, 1900, 2500];
    let fired_at = m.run_watch(&obs);
    assert_eq!(fired_at, Some(2));
    assert_eq!(m.state, State::Deciding);
    assert_eq!(m.fired, Verdict::ExitHigh);
    assert_eq!(m.decide(), Action::ReleaseAndTrigger);
    assert_eq!(m.triggers, 1);
    assert_eq!(m.releases, 1);
    assert_eq!(m.on_trigger_result(true), Action::Stop);
    assert_eq!(m.state, State::Completed);
    assert_eq!(m.triggers, 1);
}

#[test]
fn default_lower_threshold_fires_on_the_first_low_observation() {
    // With the default thresholds the same stream fires immediately: 0.5B
    // is at or below 0.75B, so the first observation already exits low and
    // nothing after it is evaluated.
    let mut m = watching_monitor(1000, 1);
    let obs = vec![500u64, 900, 1900, 2500];
    let fired_at = m.run_watch(&obs);
    assert_eq!(fired_at, Some(0));
    assert_eq!(m.fired, Verdict::ExitLow);
}

#[test]
fn subscription_failure_fails_without_trigger_or_release() {
    let mut m = Monitor::new(request(100), default_upper(), default_lower(), 1)
        .expect("positive baseline");
    assert_eq!(m.start(), Action::Subscribe);
    assert_eq!(m.on_subscribe_failed(), Action::Stop);
    assert_eq!(m.state, State::Failed(ErrorKind::SubscriptionError));
    assert_eq!(m.triggers, 0);
    assert_eq!(m.releases, 0);
}

#[test]
fn stream_closing_without_a_verdict_releases_once_and_never_triggers() {
    // baseline 100: neither 95 nor 100 crosses a boundary.
    let mut m = watching_monitor(100, 1);
    let obs = vec![95u64, 100];
    let fired_at = m.run_watch(&obs);
    assert_eq!(fired_at, None);
    assert_eq!(m.state, State::Failed(ErrorKind::StreamClosed));
    assert_eq!(m.releases, 1);
    assert_eq!(m.triggers, 0);
}

#[test]
fn stream_error_releases_once_and_never_triggers() {
    let mut m = watching_monitor(100, 1);
    assert_eq!(m.on_observation(101), Action::AwaitObservation);
    assert_eq!(m.on_stream_error(), Action::Release);
    assert_eq!(m.state, State::Failed(ErrorKind::StreamError));
    assert_eq!(m.releases, 1);
    assert_eq!(m.triggers, 0);
}

#[test]
fn trigger_failure_fails_the_watch_after_release() {
    let mut m = watching_monitor(100, 1);
    assert_eq!(m.on_observation(200), Action::Decide);
    assert_eq!(m.decide(), Action::ReleaseAndTrigger);
    assert_eq!(m.on_trigger_result(false), Action::Stop);
    assert_eq!(m.state, State::Failed(ErrorKind::TriggerError));
    assert_eq!(m.releases, 1);
    assert_eq!(m.triggers, 1);
}

#[test]
fn balance_lookup_outcome_is_mapped_exactly() {
    assert_eq!(resolve_balance(Some(123)), Ok(123));
    assert_eq!(resolve_balance(None), Err(ErrorKind::PreconditionError));
}
