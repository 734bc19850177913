use numlocklrs::apply_outcome;
use numlocklrs::confirm_outcome;
use numlocklrs::should_press;
use numlocklrs::Action;
use numlocklrs::Error;
use numlocklrs::PollVerdict;
use numlocklrs::Poller;
use numlocklrs::State;
use numlocklrs::POLL_BUDGET;

fn steady(state: State, n: usize) -> Vec<Result<State, Error>> {
    vec![Ok(state); n]
}

#[test]
fn press_decision_table() {
    assert!(!should_press(Action::Query, State::OFF));
    assert!(!should_press(Action::Query, State::ON));
    assert!(should_press(Action::SetOn, State::OFF));
    assert!(!should_press(Action::SetOn, State::ON));
    assert!(should_press(Action::SetOff, State::ON));
    assert!(!should_press(Action::SetOff, State::OFF));
    assert!(should_press(Action::Toggle, State::OFF));
    assert!(should_press(Action::Toggle, State::ON));
}

#[test]
fn confirm_succeeds_when_state_changes_within_budget() {
    let mut readings = steady(State::OFF, 10);
    readings[2] = Ok(State::ON);
    assert_eq!(confirm_outcome(State::OFF, readings, POLL_BUDGET), Ok(()));
}

#[test]
fn confirm_fails_when_state_never_changes() {
    let readings = steady(State::OFF, 10);
    assert_eq!(
        confirm_outcome(State::OFF, readings, POLL_BUDGET),
        Err(Error::FailedToPressNumlock)
    );
}

#[test]
fn confirm_ignores_changes_beyond_the_budget() {
    let mut readings = steady(State::OFF, 12);
    readings[11] = Ok(State::ON);
    assert_eq!(
        confirm_outcome(State::OFF, readings, POLL_BUDGET),
        Err(Error::FailedToPressNumlock)
    );
}

#[test]
fn confirm_propagates_a_failed_read() {
    let mut readings = steady(State::OFF, 10);
    readings[1] = Err(Error::IoError(b"permission denied".to_vec()));
    assert_eq!(
        confirm_outcome(State::OFF, readings, POLL_BUDGET),
        Err(Error::IoError(b"permission denied".to_vec()))
    );
}

#[test]
fn apply_toggle_confirmed_on_third_poll() {
    let mut readings = steady(State::OFF, 10);
    readings[2] = Ok(State::ON);
    let r = apply_outcome(State::OFF, Action::Toggle, Ok(()), Some(readings), POLL_BUDGET);
    assert_eq!(r, Ok(true));
}

#[test]
fn apply_set_on_when_already_on_never_presses() {
    // The press result is a provider failure: were the emitter invoked,
    // the operation would fail. It must not be.
    let readings = steady(State::ON, 10);
    let r = apply_outcome(
        State::ON,
        Action::SetOn,
        Err(Error::UInputError(b"no permission to create the device".to_vec())),
        Some(readings),
        POLL_BUDGET,
    );
    assert_eq!(r, Ok(false));
}

#[test]
fn apply_set_off_when_already_off_never_presses() {
    let r = apply_outcome(State::OFF, Action::SetOff, Err(Error::NoLedsFound), None, POLL_BUDGET);
    assert_eq!(r, Ok(false));
}

#[test]
fn apply_query_never_presses() {
    let r = apply_outcome(State::ON, Action::Query, Err(Error::NoLedsFound), None, POLL_BUDGET);
    assert_eq!(r, Ok(false));
}

#[test]
fn apply_propagates_a_failed_press() {
    let readings = steady(State::OFF, 10);
    let r = apply_outcome(
        State::OFF,
        Action::Toggle,
        Err(Error::UInputError(b"device gone".to_vec())),
        Some(readings),
        POLL_BUDGET,
    );
    assert_eq!(r, Err(Error::UInputError(b"device gone".to_vec())));
}

#[test]
fn apply_without_prior_observation_skips_confirmation() {
    let r = apply_outcome(State::OFF, Action::Toggle, Ok(()), None, POLL_BUDGET);
    assert_eq!(r, Ok(true));
}

#[test]
fn apply_reports_exhausted_confirmation() {
    let readings = steady(State::ON, 10);
    let r = apply_outcome(State::ON, Action::Toggle, Ok(()), Some(readings), POLL_BUDGET);
    assert_eq!(r, Err(Error::FailedToPressNumlock));
}

#[test]
fn poller_confirms_on_change() {
    let mut p = Poller::new(State::OFF, POLL_BUDGET);
    assert_eq!(p.observe(Ok(State::OFF)), PollVerdict::Again);
    assert_eq!(p.observe(Ok(State::OFF)), PollVerdict::Again);
    assert_eq!(p.observe(Ok(State::ON)), PollVerdict::Confirmed);
}

#[test]
fn poller_aborts_when_budget_runs_out() {
    let mut p = Poller::new(State::ON, 2);
    assert_eq!(p.observe(Ok(State::ON)), PollVerdict::Again);
    assert_eq!(
        p.observe(Ok(State::ON)),
        PollVerdict::Abort(Error::FailedToPressNumlock)
    );
}

#[test]
fn poller_aborts_on_failed_read() {
    let mut p = Poller::new(State::ON, POLL_BUDGET);
    assert_eq!(
        p.observe(Err(Error::IoError(b"gone".to_vec()))),
        PollVerdict::Abort(Error::IoError(b"gone".to_vec()))
    );
}

#[test]
fn poll_budget_is_ten() {
    assert_eq!(POLL_BUDGET, 10);
}
