//! The exit monitor: a state machine that owns one watch lifecycle.
//!
//! The monitor consumes observations one at a time, classifies each against
//! the baseline, and on the first firing verdict stops consuming, orders the
//! subscription released and the exit action run — exactly once. Every path
//! that leaves the watch after the subscription was established orders
//! exactly one release, and no path orders more than one trigger.
//!
//! The monitor itself performs no I/O: a driver performs each ordered
//! [`Action`] and reports its outcome back through the event methods.

use vstd::prelude::*;
use crate::errors::ErrorKind;
use crate::request::SellRequest;
use crate::threshold::{Multiplier, Verdict, spec_verdict};

verus! {

/// The lifecycle states of one watch.
#[derive(Clone, Copy, Debug, PartialEq, Eq, Structural)]
pub enum State {
    /// Created, nothing requested yet.
    Idle,
    /// A subscription to the watched account has been requested.
    Subscribing,
    /// Consuming observations from the established subscription.
    Watching,
    /// A firing verdict was reached; cleanup and trigger are about to be ordered.
    Deciding,
    /// Release and trigger have been ordered; awaiting the trigger's outcome.
    Triggering,
    /// Terminal: the exit action ran and succeeded.
    Completed,
    /// Terminal: the watch failed with the recorded error.
    Failed(ErrorKind),
}

/// What the driver must do next after each step of the monitor.
#[derive(Clone, Copy, Debug, PartialEq, Eq, Structural)]
pub enum Action {
    /// Establish the subscription to the watched account.
    Subscribe,
    /// Wait for the next observation (or stream end) and report it.
    AwaitObservation,
    /// A verdict fired: call [`Monitor::decide`] to order cleanup and trigger.
    Decide,
    /// Release the subscription, then run the exit action, and report its outcome.
    ReleaseAndTrigger,
    /// Release the subscription; the watch has failed, no trigger runs.
    Release,
    /// Nothing further: the watch is in a terminal state.
    Stop,
}

/// Does this observation fire either threshold?
pub open spec fn fires(value: u64, baseline: u64, upper: Multiplier, lower: Multiplier) -> bool {
    spec_verdict(value, baseline, upper, lower) != Verdict::Continue
}

/// One watch lifecycle. `releases` and `triggers` count how many release and
/// trigger orders the monitor has issued; the well-formedness invariant pins
/// both to at most one, which is the exactly-once guarantee.
#[derive(Clone, Copy, Debug, PartialEq, Eq)]
pub struct Monitor {
    /// Where the watch stands.
    pub state: State,
    /// The immutable request this watch serves.
    pub request: SellRequest,
    /// The upper threshold multiplier.
    pub upper: Multiplier,
    /// The lower threshold multiplier.
    pub lower: Multiplier,
    /// The amount the exit action will use, looked up before watching.
    pub amount: u64,
    /// The firing verdict, or `Continue` while none has fired.
    pub fired: Verdict,
    /// How many subscription releases the monitor has ordered.
    pub releases: u64,
    /// How many trigger invocations the monitor has ordered.
    pub triggers: u64,
}

impl Monitor {
    /// The baseline metric of this watch, in lamports.
    pub open spec fn baseline(self) -> u64 {
        self.request.sol_pooled_when_bought
    }

    /// Well-formedness: valid thresholds, a positive baseline, and release
    /// and trigger counts that match the state — never more than one each.
    pub open spec fn wf(self) -> bool {
        &&& self.upper.wf()
        &&& self.lower.wf()
        &&& self.baseline() > 0
        &&& match self.state {
            State::Idle | State::Subscribing | State::Watching => {
                self.releases == 0 && self.triggers == 0 && self.fired == Verdict::Continue
            },
            State::Deciding => {
                self.releases == 0 && self.triggers == 0 && self.fired != Verdict::Continue
            },
            State::Triggering | State::Completed => {
                self.releases == 1 && self.triggers == 1 && self.fired != Verdict::Continue
            },
            State::Failed(kind) => match kind {
                ErrorKind::InvalidBaseline => self.releases == 0 && self.triggers == 0,
                ErrorKind::SubscriptionError => self.releases == 0 && self.triggers == 0,
                ErrorKind::StreamError => self.releases == 1 && self.triggers == 0,
                ErrorKind::StreamClosed => self.releases == 1 && self.triggers == 0,
                ErrorKind::TriggerError => self.releases == 1 && self.triggers == 1,
                ErrorKind::PreconditionError => self.releases == 0 && self.triggers == 0,
            },
        }
    }

    /// Build a monitor for one request. A request whose baseline is zero is
    /// rejected with `InvalidBaseline` before anything is watched.
    pub fn new(request: SellRequest, upper: Multiplier, lower: Multiplier, amount: u64) -> (r: Result<Monitor, ErrorKind>)
        requires
            upper.wf(),
            lower.wf(),
        ensures
            request.sol_pooled_when_bought == 0 ==> r == Result::<Monitor, ErrorKind>::Err(ErrorKind::InvalidBaseline),
            request.sol_pooled_when_bought > 0 ==> r == Result::<Monitor, ErrorKind>::Ok(Monitor {
                state: State::Idle,
                request,
                upper,
                lower,
                amount,
                fired: Verdict::Continue,
                releases: 0,
                triggers: 0,
            }),
            r matches Ok(m) ==> m.wf() && m.state == State::Idle,
    {
        if request.sol_pooled_when_bought == 0 {
            Err(ErrorKind::InvalidBaseline)
        } else {
            Ok(Monitor {
                state: State::Idle,
                request,
                upper,
                lower,
                amount,
                fired: Verdict::Continue,
                releases: 0,
                triggers: 0,
            })
        }
    }

    /// Begin the watch: request the subscription.
    pub fn start(&mut self) -> (a: Action)
        requires
            old(self).wf(),
            old(self).state == State::Idle,
        ensures
            final(self).wf(),
            *final(self) == (Monitor { state: State::Subscribing, ..*old(self) }),
            a == Action::Subscribe,
    {
        self.state = State::Subscribing;
        Action::Subscribe
    }

    /// The subscription was established: start consuming observations.
    pub fn on_subscribed(&mut self) -> (a: Action)
        requires
            old(self).wf(),
            old(self).state == State::Subscribing,
        ensures
            final(self).wf(),
            *final(self) == (Monitor { state: State::Watching, ..*old(self) }),
            a == Action::AwaitObservation,
    {
        self.state = State::Watching;
        Action::AwaitObservation
    }

    /// The subscription could not be established: fail without any cleanup
    /// (there is no handle to release) and without any trigger.
    pub fn on_subscribe_failed(&mut self) -> (a: Action)
        requires
            old(self).wf(),
            old(self).state == State::Subscribing,
        ensures
            final(self).wf(),
            *final(self) == (Monitor { state: State::Failed(ErrorKind::SubscriptionError), ..*old(self) }),
            a == Action::Stop,
    {
        self.state = State::Failed(ErrorKind::SubscriptionError);
        Action::Stop
    }

    /// Feed one observation. On `Continue` the watch goes on; on a firing
    /// verdict the monitor records it, stops consuming, and asks the driver
    /// to proceed to the decision step.
    pub fn on_observation(&mut self, value: u64) -> (a: Action)
        requires
            old(self).wf(),
            old(self).state == State::Watching,
        ensures
            final(self).wf(),
            !fires(value, old(self).baseline(), old(self).upper, old(self).lower) ==> {
                &&& *final(self) == *old(self)
                &&& a == Action::AwaitObservation
            },
            fires(value, old(self).baseline(), old(self).upper, old(self).lower) ==> {
                &&& *final(self) == (Monitor {
                    state: State::Deciding,
                    fired: spec_verdict(value, old(self).baseline(), old(self).upper, old(self).lower),
                    ..*old(self)
                })
                &&& a == Action::Decide
            },
    {
        let verdict = crate::threshold::classify(
            value,
            self.request.sol_pooled_when_bought,
            self.upper,
            self.lower,
        );
        match verdict {
            Verdict::Continue => Action::AwaitObservation,
            Verdict::ExitHigh => {
                self.state = State::Deciding;
                self.fired = Verdict::ExitHigh;
                Action::Decide
            },
            Verdict::ExitLow => {
                self.state = State::Deciding;
                self.fired = Verdict::ExitLow;
                Action::Decide
            },
        }
    }

    /// Order the cleanup and the exit action: exactly one release of the
    /// subscription followed by exactly one trigger invocation.
    pub fn decide(&mut self) -> (a: Action)
        requires
            old(self).wf(),
            old(self).state == State::Deciding,
        ensures
            final(self).wf(),
            *final(self) == (Monitor { state: State::Triggering, releases: 1u64, triggers: 1u64, ..*old(self) }),
            a == Action::ReleaseAndTrigger,
    {
        self.state = State::Triggering;
        self.releases = 1;
        self.triggers = 1;
        Action::ReleaseAndTrigger
    }

    /// The exit action reported its outcome: success completes the watch,
    /// failure fails it — the subscription was already released either way.
    pub fn on_trigger_result(&mut self, ok: bool) -> (a: Action)
        requires
            old(self).wf(),
            old(self).state == State::Triggering,
        ensures
            final(self).wf(),
            ok ==> *final(self) == (Monitor { state: State::Completed, ..*old(self) }),
            !ok ==> *final(self) == (Monitor { state: State::Failed(ErrorKind::TriggerError), ..*old(self) }),
            a == Action::Stop,
    {
        if ok {
            self.state = State::Completed;
        } else {
            self.state = State::Failed(ErrorKind::TriggerError);
        }
        Action::Stop
    }

    /// The source closed the stream before any threshold was crossed:
    /// release the subscription exactly once and fail with `StreamClosed`;
    /// no trigger ever runs.
    pub fn on_stream_closed(&mut self) -> (a: Action)
        requires
            old(self).wf(),
            old(self).state == State::Watching,
        ensures
            final(self).wf(),
            *final(self) == (Monitor { state: State::Failed(ErrorKind::StreamClosed), releases: 1u64, ..*old(self) }),
            a == Action::Release,
    {
        self.state = State::Failed(ErrorKind::StreamClosed);
        self.releases = 1;
        Action::Release
    }

    /// The stream failed mid-watch: release the subscription exactly once
    /// and fail with `StreamError`; no trigger ever runs.
    pub fn on_stream_error(&mut self) -> (a: Action)
        requires
            old(self).wf(),
            old(self).state == State::Watching,
        ensures
            final(self).wf(),
            *final(self) == (Monitor { state: State::Failed(ErrorKind::StreamError), releases: 1u64, ..*old(self) }),
            a == Action::Release,
    {
        self.state = State::Failed(ErrorKind::StreamError);
        self.releases = 1;
        Action::Release
    }

    /// Consume a finite stream of observations: feed each to the evaluator
    /// in order until the first firing one, whose index is returned; later
    /// observations are never evaluated. If none fires, the stream's end is
    /// a `StreamClosed` failure with the subscription released exactly once.
    pub fn run_watch(&mut self, observations: &Vec<u64>) -> (fired_at: Option<usize>)
        requires
            old(self).wf(),
            old(self).state == State::Watching,
        ensures
            final(self).wf(),
            final(self).request == old(self).request,
            final(self).amount == old(self).amount,
            final(self).upper == old(self).upper,
            final(self).lower == old(self).lower,
            match fired_at {
                Some(i) => {
                    &&& i < observations@.len()
                    &&& fires(observations@[i as int], old(self).baseline(), old(self).upper, old(self).lower)
                    &&& (forall|j: int| 0 <= j < i ==> !fires(observations@[j], old(self).baseline(), old(self).upper, old(self).lower))
                    &&& final(self).state == State::Deciding
                    &&& final(self).fired == spec_verdict(observations@[i as int], old(self).baseline(), old(self).upper, old(self).lower)
                    &&& final(self).triggers == 0 && final(self).releases == 0
                },
                None => {
                    &&& (forall|j: int| 0 <= j < observations@.len() ==> !fires(observations@[j], old(self).baseline(), old(self).upper, old(self).lower))
                    &&& final(self).state == State::Failed(ErrorKind::StreamClosed)
                    &&& final(self).triggers == 0 && final(self).releases == 1
                },
            },
    {
        let n = observations.len();
        let mut i: usize = 0;
        while i < n
            invariant
                self.wf(),
                self.state == State::Watching,
                *self == *old(self),
                i <= n,
                n == observations@.len(),
                forall|j: int| 0 <= j < i ==> !fires(observations@[j], old(self).baseline(), old(self).upper, old(self).lower),
            decreases n - i,
        {
            let value = observations[i];
            let a = self.on_observation(value);
            if matches!(a, Action::Decide) {
                return Some(i);
            }
            i = i + 1;
        }
        self.on_stream_closed();
        None
    }

    /// What the driver hands the exit action: the request's pool and asset
    /// pair, and the amount looked up before the watch began.
    pub fn trigger_context(&self) -> (r: (SellRequest, u64))
        ensures
            r == (self.request, self.amount),
    {
        (self.request, self.amount)
    }
}

/// Turn the outcome of the pre-watch balance lookup into the amount the exit
/// action will use: a failed lookup is a `PreconditionError`, aborting before
/// any subscription is made.
pub fn resolve_balance(lookup: Option<u64>) -> (r: Result<u64, ErrorKind>)
    ensures
        match lookup {
            Some(amount) => r == Result::<u64, ErrorKind>::Ok(amount),
            None => r == Result::<u64, ErrorKind>::Err(ErrorKind::PreconditionError),
        },
{
    match lookup {
        Some(amount) => Ok(amount),
        None => Err(ErrorKind::PreconditionError),
    }
}

/// Replay one whole watch over the outside world's outcomes: the pre-watch
/// balance lookup, whether the subscription was established, the finite
/// observation stream, and the exit action's outcome. Returns the terminal
/// monitor together with the index of the firing observation, if one fired.
///
/// This is the composed lifecycle: a live driver performs the same steps one
/// at a time, handing each outside outcome to the same methods as they come.
pub fn run_session(
    request: SellRequest,
    upper: Multiplier,
    lower: Multiplier,
    lookup: Option<u64>,
    subscribed: bool,
    observations: &Vec<u64>,
    trigger_ok: bool,
) -> (r: Result<(Monitor, Option<usize>), ErrorKind>)
    requires
        upper.wf(),
        lower.wf(),
    ensures
        lookup is None ==> r == Result::<(Monitor, Option<usize>), ErrorKind>::Err(ErrorKind::PreconditionError),
        lookup is Some && request.sol_pooled_when_bought == 0
            ==> r == Result::<(Monitor, Option<usize>), ErrorKind>::Err(ErrorKind::InvalidBaseline),
        lookup is Some && request.sol_pooled_when_bought > 0 ==> r is Ok,
        r matches Ok((m, fired_at)) ==> {
            &&& m.wf()
            &&& m.request == request
            &&& m.upper == upper
            &&& m.lower == lower
            &&& lookup matches Some(amount) && m.amount == amount
            &&& !subscribed ==> {
                &&& m.state == State::Failed(ErrorKind::SubscriptionError)
                &&& m.releases == 0 && m.triggers == 0
                &&& fired_at is None
            }
            &&& subscribed ==> match fired_at {
                Some(i) => {
                    &&& i < observations@.len()
                    &&& fires(observations@[i as int], request.sol_pooled_when_bought, upper, lower)
                    &&& (forall|j: int| 0 <= j < i ==> !fires(observations@[j], request.sol_pooled_when_bought, upper, lower))
                    &&& m.fired == spec_verdict(observations@[i as int], request.sol_pooled_when_bought, upper, lower)
                    &&& m.releases == 1 && m.triggers == 1
                    &&& trigger_ok ==> m.state == State::Completed
                    &&& !trigger_ok ==> m.state == State::Failed(ErrorKind::TriggerError)
                },
                None => {
                    &&& (forall|j: int| 0 <= j < observations@.len()
                        ==> !fires(observations@[j], request.sol_pooled_when_bought, upper, lower))
                    &&& m.state == State::Failed(ErrorKind::StreamClosed)
                    &&& m.releases == 1 && m.triggers == 0
                },
            }
        },
{
    let amount = match resolve_balance(lookup) {
        Ok(a) => a,
        Err(kind) => {
            return Err(kind);
        },
    };
    let mut m = match Monitor::new(request, upper, lower, amount) {
        Ok(m) => m,
        Err(kind) => {
            return Err(kind);
        },
    };
    m.start();
    if !subscribed {
        m.on_subscribe_failed();
        return Ok((m, None));
    }
    m.on_subscribed();
    let fired_at = m.run_watch(observations);
    match fired_at {
        Some(i) => {
            m.decide();
            m.on_trigger_result(trigger_ok);
            Ok((m, Some(i)))
        },
        None => Ok((m, None)),
    }
}

/// Law: no reachable monitor state orders the trigger more than once.
pub proof fn lemma_trigger_at_most_once(m: Monitor)
    requires
        m.wf(),
    ensures
        m.triggers <= 1,
{
}

/// Law: no reachable monitor state orders more than one subscription release.
pub proof fn lemma_release_at_most_once(m: Monitor)
    requires
        m.wf(),
    ensures
        m.releases <= 1,
{
}

/// Law: a completed watch ordered exactly one trigger and exactly one release.
pub proof fn lemma_completed_exactly_once(m: Monitor)
    requires
        m.wf(),
        m.state == State::Completed,
    ensures
        m.triggers == 1,
        m.releases == 1,
{
}

/// Law: when no subscription was ever established, nothing is triggered and
/// there is no handle to release.
pub proof fn lemma_failed_before_subscribing_is_clean(m: Monitor)
    requires
        m.wf(),
        m.state == State::Failed(ErrorKind::SubscriptionError) || m.state == State::Failed(ErrorKind::PreconditionError),
    ensures
        m.triggers == 0,
        m.releases == 0,
{
}

/// Law: a watch that failed mid-stream released its subscription exactly
/// once and never ran the trigger.
pub proof fn lemma_stream_failure_released_once(m: Monitor)
    requires
        m.wf(),
        m.state == State::Failed(ErrorKind::StreamClosed) || m.state == State::Failed(ErrorKind::StreamError),
    ensures
        m.triggers == 0,
        m.releases == 1,
{
}

} // verus!
