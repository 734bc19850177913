//! The decision logic around a requested action: whether the Num Lock
//! key must be pressed, and the bounded polling that confirms the
//! press took effect.
//!
//! Pressing the key and sleeping between polls are side effects of the
//! surrounding program; this module decides. The poll protocol is
//! modelled twice: [`spec_confirm`] with [`confirm_outcome`] judge a
//! whole sequence of readings at once, and [`Poller`] consumes one
//! reading at a time, for a driver that reads lazily and stops as soon
//! as the verdict is known.

use vstd::prelude::*;

use crate::led::Error;
use crate::led::Res;
use crate::led::State;

verus! {

/// How many times the LED is re-read after a press before the change
/// is given up on.
pub const POLL_BUDGET: u32 = 10;

/// Microseconds between two confirmation polls.
pub const POLL_INTERVAL_MICROS: u64 = 10000;

/// Microseconds to wait after creating the virtual device, and after
/// an unconfirmed press, for the input stack to settle.
pub const SETTLE_MICROS: u64 = 100000;

/// What the caller asked for. Immutable once computed; consumed once
/// to decide whether a state change is attempted.
#[derive(Debug, Copy, Clone, Eq, PartialEq, Structural)]
pub enum Action {
    /// Report the current state; never press.
    Query,
    /// Make sure the LED is on.
    SetOn,
    /// Make sure the LED is off.
    SetOff,
    /// Flip the LED whatever its state.
    Toggle,
}

/// Whether the requested action, against the observed state, calls for
/// a key press: a query never does, setting a state only when the
/// observed state differs from it, a toggle always.
pub open spec fn spec_should_press(action: Action, state: State) -> bool {
    match action {
        Action::Query => false,
        Action::SetOn => state is OFF,
        Action::SetOff => state is ON,
        Action::Toggle => true,
    }
}

/// Decides whether the requested action calls for a key press.
pub fn should_press(action: Action, state: State) -> (r: bool)
    ensures
        r == spec_should_press(action, state),
{
    match action {
        Action::Query => false,
        Action::SetOn => state == State::OFF,
        Action::SetOff => state == State::ON,
        Action::Toggle => true,
    }
}

/// A toggle always calls for a press, whatever the observed state.
pub proof fn lemma_toggle_always_presses(state: State)
    ensures
        spec_should_press(Action::Toggle, state),
{
}

/// The verdict of the confirmation protocol on a sequence of
/// re-readings of the LED, given the state observed before the press:
/// the first reading decides — a failed read propagates, a changed
/// state confirms — and when `budget` readings in a row still show the
/// old state the protocol gives up with `Error::FailedToPressNumlock`.
pub open spec fn spec_confirm(pre: State, readings: Seq<Result<State, Error>>, budget: nat) -> Result<
    (),
    Error,
>
    decreases budget,
{
    if budget == 0 || readings.len() == 0 {
        Err(Error::FailedToPressNumlock)
    } else {
        match readings[0] {
            Err(e) => Err(e),
            Ok(s) => if s != pre {
                Ok(())
            } else {
                spec_confirm(pre, readings.drop_first(), (budget - 1) as nat)
            },
        }
    }
}

/// Judges a whole sequence of re-readings at once: the verdict the
/// poll protocol reaches when the re-readings come back in this order.
#[verifier::loop_isolation(false)]
pub fn confirm_outcome(pre: State, readings: Vec<Result<State, Error>>, budget: u32) -> (r: Res<
    (),
>)
    requires
        readings@.len() >= budget,
    ensures
        r == spec_confirm(pre, readings@, budget as nat),
{
    let ghost orig = readings@;
    let mut rs = readings;
    let mut left = budget;
    while left > 0
        invariant
            rs@.len() >= left,
            spec_confirm(pre, orig, budget as nat) == spec_confirm(pre, rs@, left as nat),
        decreases left,
    {
        let ghost before = rs@;
        let reading = rs.remove(0);
        proof {
            assert(before.remove(0) =~= before.drop_first());
        }
        match reading {
            Err(e) => {
                return Err(e);
            },
            Ok(s) => {
                if s != pre {
                    return Ok(());
                }
            },
        }
        left = left - 1;
    }
    Err(Error::FailedToPressNumlock)
}

/// A source that changes state within the budget confirms the press:
/// when the readings show the old state up to position `i` and a
/// changed state there, the protocol succeeds.
pub proof fn lemma_confirm_detects_change(
    pre: State,
    readings: Seq<Result<State, Error>>,
    budget: nat,
    i: int,
)
    requires
        readings.len() >= budget,
        0 <= i < budget,
        readings[i] matches Ok(s) && s != pre,
        forall|j: int| 0 <= j < i ==> readings[j] == Ok::<State, Error>(pre),
    ensures
        spec_confirm(pre, readings, budget) == Ok::<(), Error>(()),
    decreases i,
{
    if i > 0 {
        assert(readings[0] == Ok::<State, Error>(pre));
        let rest = readings.drop_first();
        assert(rest[i - 1] == readings[i]);
        assert forall|j: int| 0 <= j < i - 1 implies rest[j] == Ok::<State, Error>(pre) by {
            assert(rest[j] == readings[j + 1]);
        }
        lemma_confirm_detects_change(pre, rest, (budget - 1) as nat, i - 1);
    }
}

/// A source that never changes state within the budget exhausts the
/// protocol: when every reading within the budget shows the old state,
/// the protocol fails with `Error::FailedToPressNumlock`.
pub proof fn lemma_confirm_exhausts(pre: State, readings: Seq<Result<State, Error>>, budget: nat)
    requires
        readings.len() >= budget,
        forall|j: int| 0 <= j < budget ==> readings[j] == Ok::<State, Error>(pre),
    ensures
        spec_confirm(pre, readings, budget) == Err::<(), Error>(Error::FailedToPressNumlock),
    decreases budget,
{
    if budget > 0 {
        assert(readings[0] == Ok::<State, Error>(pre));
        let rest = readings.drop_first();
        assert forall|j: int| 0 <= j < budget - 1 implies rest[j] == Ok::<State, Error>(pre) by {
            assert(rest[j] == readings[j + 1]);
        }
        lemma_confirm_exhausts(pre, rest, (budget - 1) as nat);
    }
}

/// The confirmation protocol, one reading at a time: created from the
/// state observed before the press and the poll budget, and fed each
/// re-reading as it comes.
pub struct Poller {
    /// The state observed before the press.
    pub pre: State,
    /// How many readings may still be consumed.
    pub remaining: u32,
}

/// What one reading decides: the change is confirmed, the protocol
/// aborts with an error, or another reading is needed.
#[derive(Debug, PartialEq, Eq)]
pub enum PollVerdict {
    /// A state differing from the one before the press was observed.
    Confirmed,
    /// A read failed, or the budget is exhausted without a change.
    Abort(Error),
    /// The old state is still showing and budget remains: poll again.
    Again,
}

impl Poller {
    /// Starts the protocol against the state observed before the
    /// press, with `budget` readings to spend.
    pub fn new(pre: State, budget: u32) -> (p: Poller)
        ensures
            p.pre == pre,
            p.remaining == budget,
    {
        Poller { pre, remaining: budget }
    }

    /// Consumes one re-reading: a failed read aborts with its error, a
    /// changed state confirms, the old state on the last reading of
    /// the budget aborts with `Error::FailedToPressNumlock`, and the
    /// old state with budget to spare asks for another reading.
    pub fn observe(&mut self, reading: Result<State, Error>) -> (v: PollVerdict)
        requires
            old(self).remaining > 0,
        ensures
            final(self).pre == old(self).pre,
            final(self).remaining == old(self).remaining - 1,
            match reading {
                Err(e) => v == PollVerdict::Abort(e),
                Ok(s) => if s != old(self).pre {
                    v == PollVerdict::Confirmed
                } else if old(self).remaining > 1 {
                    v == PollVerdict::Again
                } else {
                    v == PollVerdict::Abort(Error::FailedToPressNumlock)
                },
            },
    {
        self.remaining = self.remaining - 1;
        match reading {
            Err(e) => PollVerdict::Abort(e),
            Ok(s) => {
                if s != self.pre {
                    PollVerdict::Confirmed
                } else if self.remaining > 0 {
                    PollVerdict::Again
                } else {
                    PollVerdict::Abort(Error::FailedToPressNumlock)
                }
            },
        }
    }
}

/// Each verdict of [`Poller::observe`] agrees with one unfolding of
/// the confirmation protocol: a driver that feeds readings to a
/// `Poller` one at a time, stopping on the first verdict other than
/// `Again`, reaches exactly the verdict that [`spec_confirm`] gives to
/// the whole sequence of readings it would have seen.
pub proof fn lemma_poll_step_agrees_with_confirm(
    pre: State,
    reading: Result<State, Error>,
    rest: Seq<Result<State, Error>>,
    budget: nat,
)
    requires
        budget > 0,
    ensures
        spec_confirm(pre, seq![reading] + rest, budget) == (match reading {
            Err(e) => Err(e),
            Ok(s) => if s != pre {
                Ok(())
            } else if budget > 1 {
                spec_confirm(pre, rest, (budget - 1) as nat)
            } else {
                Err::<(), Error>(Error::FailedToPressNumlock)
            },
        }),
{
    let all = seq![reading] + rest;
    assert(all[0] == reading);
    assert(all.drop_first() =~= rest);
    if budget == 1 && (reading matches Ok(s) && s == pre) && rest.len() > 0 {
        assert(spec_confirm(pre, rest, 0) == Err::<(), Error>(Error::FailedToPressNumlock));
    }
}

/// The view of an optional sequence of re-readings.
pub open spec fn spec_readings_view(readings: Option<Vec<Result<State, Error>>>) -> Option<
    Seq<Result<State, Error>>,
> {
    match readings {
        Some(v) => Some(v@),
        None => None,
    }
}

/// The outcome of the whole apply operation, given the observed state,
/// the requested action, what the press of the key returned, and the
/// re-readings available for confirmation. No press needed: success
/// without pressing. A failed press propagates its error. A press with
/// no prior observation to confirm against succeeds unconditionally;
/// one with re-readings succeeds exactly when the confirmation
/// protocol does. `Ok(true)` records that the key was pressed,
/// `Ok(false)` that it was not.
pub open spec fn spec_apply(
    pre: State,
    action: Action,
    emit: Result<(), Error>,
    readings: Option<Seq<Result<State, Error>>>,
    budget: nat,
) -> Result<bool, Error> {
    if !spec_should_press(action, pre) {
        Ok(false)
    } else {
        match emit {
            Err(e) => Err(e),
            Ok(u) => match readings {
                None => Ok(true),
                Some(rs) => match spec_confirm(pre, rs, budget) {
                    Ok(u2) => Ok(true),
                    Err(e) => Err(e),
                },
            },
        }
    }
}

/// Judges one whole apply operation: `pre` is the state observed
/// before deciding, `action` what the caller asked, `emit` what the
/// press returned (ignored when no press is called for), and
/// `readings` the re-readings available for confirmation (`None` skips
/// confirmation).
pub fn apply_outcome(
    pre: State,
    action: Action,
    emit: Result<(), Error>,
    readings: Option<Vec<Result<State, Error>>>,
    budget: u32,
) -> (r: Res<bool>)
    requires
        readings matches Some(v) ==> v@.len() >= budget,
    ensures
        r == spec_apply(pre, action, emit, spec_readings_view(readings), budget as nat),
{
    if !should_press(action, pre) {
        return Ok(false);
    }
    match emit {
        Err(e) => Err(e),
        Ok(u) => match readings {
            None => Ok(true),
            Some(rs) => match confirm_outcome(pre, rs, budget) {
                Ok(u2) => Ok(true),
                Err(e) => Err(e),
            },
        },
    }
}

/// A request to switch the LED on, observed already on, presses
/// nothing and succeeds at once, whatever the press would have
/// returned and whatever the re-readings show.
pub proof fn lemma_set_on_when_on_is_noop(
    emit: Result<(), Error>,
    readings: Option<Seq<Result<State, Error>>>,
    budget: nat,
)
    ensures
        spec_apply(State::ON, Action::SetOn, emit, readings, budget) == Ok::<bool, Error>(false),
{
}

} // verus!
