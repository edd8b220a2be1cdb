//! Timeouts that keep the connection from getting stuck in a passing state.
use vstd::prelude::*;

use crate::protocol::state::ConnectionState;
use crate::runtime::channels::StateMessage;

verus! {

/// How long each supervised operation may take, in seconds.
#[derive(Debug, Clone, Copy, PartialEq, Eq, Structural)]
pub struct SupervisionConfig {
    /// Auto-detection over several baud rates.
    pub probe_timeout_secs: u64,
    /// Opening a port.
    pub connect_timeout_secs: u64,
    /// Opening a port again after its device came back.
    pub auto_reconnect_timeout_secs: u64,
    /// Closing a port.
    pub disconnect_timeout_secs: u64,
    /// Changing the parameters of a connection.
    pub reconfigure_timeout_secs: u64,
}

impl Default for SupervisionConfig {
    fn default() -> (r: SupervisionConfig)
        ensures
            r.probe_timeout_secs == 30,
            r.connect_timeout_secs == 10,
            r.auto_reconnect_timeout_secs == 10,
            r.disconnect_timeout_secs == 5,
            r.reconfigure_timeout_secs == 10,
    {
        SupervisionConfig {
            probe_timeout_secs: 30,
            connect_timeout_secs: 10,
            auto_reconnect_timeout_secs: 10,
            disconnect_timeout_secs: 5,
            reconfigure_timeout_secs: 10,
        }
    }
}

/// How long a state is supervised; `None` for a state that may last.
pub open spec fn supervised_for(
    config: SupervisionConfig,
    state: ConnectionState,
) -> Option<u64> {
    match state {
        ConnectionState::Probing => Some(config.probe_timeout_secs),
        ConnectionState::Connecting => Some(config.connect_timeout_secs),
        ConnectionState::AutoReconnecting => Some(config.auto_reconnect_timeout_secs),
        ConnectionState::Disconnecting => Some(config.disconnect_timeout_secs),
        ConnectionState::Reconfiguring => Some(config.reconfigure_timeout_secs),
        _ => None,
    }
}

impl SupervisionConfig {
    /// How long `state` is supervised; `None` for a state that may last.
    pub fn timeout_for(&self, state: ConnectionState) -> (r: Option<u64>)
        ensures
            r == supervised_for(*self, state),
    {
        match state {
            ConnectionState::Probing => Some(self.probe_timeout_secs),
            ConnectionState::Connecting => Some(self.connect_timeout_secs),
            ConnectionState::AutoReconnecting => Some(self.auto_reconnect_timeout_secs),
            ConnectionState::Disconnecting => Some(self.disconnect_timeout_secs),
            ConnectionState::Reconfiguring => Some(self.reconfigure_timeout_secs),
            _ => None,
        }
    }
}

/// How often an operation that can be interrupted looks whether it was, in
/// milliseconds.
pub const DEFAULT_CANCEL_POLL_MS: u64 = 50;

/// How often a waiting timeout looks whether it was cancelled, in milliseconds.
pub const CHECK_INTERVAL_MS: u64 = 500;

/// A timeout, and how far it has come.
#[derive(Debug)]
pub struct Timeout {
    pub cancelled: bool,
    pub operation: String,
    /// The state that takes too long if the timeout is not cancelled.
    pub state: ConnectionState,
    pub total_ms: u64,
    pub elapsed_ms: u64,
}

/// The timeouts that were started. None is ever taken out, so that a handle keeps its
/// meaning.
#[derive(Debug)]
pub struct Timeouts {
    pub started: Vec<Timeout>,
}

impl View for Timeouts {
    type V = Seq<Timeout>;

    open spec fn view(&self) -> Seq<Timeout> {
        self.started@
    }
}

/// Which of the timeouts is meant. All clones of a handle mean the same one. Whoever no
/// longer needs a handle discards it, which cancels the timeout.
#[derive(Debug, PartialEq, Eq, Structural)]
pub struct TimeoutHandle {
    pub number: usize,
}

impl Clone for TimeoutHandle {
    fn clone(&self) -> (r: TimeoutHandle)
        ensures
            r == *self,
    {
        TimeoutHandle { number: self.number }
    }
}

/// What a timeout does next.
pub enum TimeoutStep {
    /// Wait, then look again.
    Sleep { millis: u64 },
    /// Tell the state actor.
    Fire(StateMessage),
    /// Nothing more.
    Stop,
}

/// How long a timeout waits before it looks again; `None` once its time is up.
pub open spec fn next_sleep(total_ms: u64, elapsed_ms: u64) -> Option<u64> {
    if elapsed_ms < total_ms {
        if total_ms - elapsed_ms < CHECK_INTERVAL_MS {
            Some((total_ms - elapsed_ms) as u64)
        } else {
            Some(CHECK_INTERVAL_MS)
        }
    } else {
        None
    }
}

/// What a timeout does when it is looked at.
pub open spec fn next_step(timeout: Timeout) -> TimeoutStep {
    if timeout.cancelled {
        TimeoutStep::Stop
    } else {
        match next_sleep(timeout.total_ms, timeout.elapsed_ms) {
            Some(millis) => TimeoutStep::Sleep { millis },
            None => TimeoutStep::Fire(
                StateMessage::OperationTimeout {
                    operation: timeout.operation,
                    state: timeout.state,
                },
            ),
        }
    }
}

/// A timeout after it was looked at: the time that it now sleeps counts as passed.
pub open spec fn looked_at(timeout: Timeout) -> Timeout {
    match next_step(timeout) {
        TimeoutStep::Sleep { millis } => Timeout {
            elapsed_ms: (timeout.elapsed_ms + millis) as u64,
            ..timeout
        },
        _ => timeout,
    }
}

/// What can be done to timeouts.
pub enum TimeoutAction {
    Start(Timeout),
    Cancel(TimeoutHandle),
    Tick(TimeoutHandle),
}

/// A handle means one of the timeouts.
pub open spec fn means_one(timeouts: Seq<Timeout>, handle: TimeoutHandle) -> bool {
    handle.number < timeouts.len()
}

/// The timeouts after an action; a handle that means none of them changes nothing.
pub open spec fn after_action(timeouts: Seq<Timeout>, action: TimeoutAction) -> Seq<Timeout> {
    match action {
        TimeoutAction::Start(timeout) => timeouts.push(timeout),
        TimeoutAction::Cancel(handle) => if means_one(timeouts, handle) {
            let timeout = timeouts[handle.number as int];
            timeouts.update(handle.number as int, Timeout { cancelled: true, ..timeout })
        } else {
            timeouts
        },
        TimeoutAction::Tick(handle) => if means_one(timeouts, handle) {
            let timeout = timeouts[handle.number as int];
            timeouts.update(handle.number as int, looked_at(timeout))
        } else {
            timeouts
        },
    }
}

/// The timeouts after some actions, one after another.
pub open spec fn after_actions(
    timeouts: Seq<Timeout>,
    actions: Seq<TimeoutAction>,
) -> Seq<Timeout>
    decreases actions.len(),
{
    if actions.len() == 0 {
        timeouts
    } else {
        after_action(after_actions(timeouts, actions.drop_last()), actions.last())
    }
}

/// What comes of looking at the timeout that a handle means; nothing if it means none.
pub open spec fn step_of(timeouts: Seq<Timeout>, handle: TimeoutHandle) -> TimeoutStep {
    if means_one(timeouts, handle) {
        next_step(timeouts[handle.number as int])
    } else {
        TimeoutStep::Stop
    }
}

impl Timeouts {
    /// No timeouts yet.
    pub fn new() -> (r: Timeouts)
        ensures
            r@ == Seq::<Timeout>::empty(),
    {
        Timeouts { started: Vec::new() }
    }

    /// Looks whether a timeout was cancelled or its time is up.
    pub fn tick(&mut self, handle: &TimeoutHandle) -> (r: TimeoutStep)
        ensures
            r == step_of(old(self)@, *handle),
            final(self)@ == after_action(old(self)@, TimeoutAction::Tick(*handle)),
    {
        let number: usize = handle.number;
        if number >= self.started.len() {
            return TimeoutStep::Stop;
        }
        let total_ms: u64 = self.started[number].total_ms;
        let elapsed_ms: u64 = self.started[number].elapsed_ms;
        let step = if self.started[number].cancelled {
            TimeoutStep::Stop
        } else if elapsed_ms < total_ms {
            let remaining: u64 = total_ms - elapsed_ms;
            let millis: u64 = if remaining < CHECK_INTERVAL_MS {
                remaining
            } else {
                CHECK_INTERVAL_MS
            };
            self.started[number].elapsed_ms = elapsed_ms + millis;
            TimeoutStep::Sleep { millis }
        } else {
            TimeoutStep::Fire(
                StateMessage::OperationTimeout {
                    operation: self.started[number].operation.clone(),
                    state: self.started[number].state,
                },
            )
        };
        assert(self@ =~= after_action(old(self)@, TimeoutAction::Tick(*handle)));
        step
    }
}

/// A timeout that has just begun to wait.
pub open spec fn just_started(
    timeout: Timeout,
    operation: Seq<char>,
    state: ConnectionState,
    timeout_secs: u64,
) -> bool {
    &&& !timeout.cancelled
    &&& timeout.operation@ == operation
    &&& timeout.state == state
    &&& timeout.total_ms == timeout_secs * 1000
    &&& timeout.elapsed_ms == 0
}

/// Starts a timeout, and says how to cancel it.
pub fn spawn_timeout(
    timeouts: &mut Timeouts,
    operation: &str,
    state: ConnectionState,
    timeout_secs: u64,
) -> (r: TimeoutHandle)
    requires
        timeout_secs * 1000 <= u64::MAX,
    ensures
        r.number == old(timeouts)@.len(),
        just_started(final(timeouts)@.last(), operation@, state, timeout_secs),
        final(timeouts)@ == after_action(
            old(timeouts)@,
            TimeoutAction::Start(final(timeouts)@.last()),
        ),
{
    let number: usize = timeouts.started.len();
    timeouts.started.push(
        Timeout {
            cancelled: false,
            operation: operation.to_owned(),
            state,
            total_ms: timeout_secs * 1000,
            elapsed_ms: 0,
        },
    );
    TimeoutHandle { number }
}

impl TimeoutHandle {
    /// Keeps the timeout from firing.
    pub fn cancel(&self, timeouts: &mut Timeouts)
        ensures
            final(timeouts)@ == after_action(old(timeouts)@, TimeoutAction::Cancel(*self)),
    {
        if self.number < timeouts.started.len() {
            timeouts.started[self.number].cancelled = true;
        }
        assert(timeouts@ =~= after_action(old(timeouts)@, TimeoutAction::Cancel(*self)));
    }

    /// Gives the handle up, which keeps the timeout from firing, whatever clones of the
    /// handle are left.
    pub fn discard(self, timeouts: &mut Timeouts)
        ensures
            final(timeouts)@ == after_action(old(timeouts)@, TimeoutAction::Cancel(self)),
    {
        self.cancel(timeouts)
    }

    /// Whether the timeout was cancelled.
    pub fn is_cancelled(&self, timeouts: &Timeouts) -> (r: bool)
        ensures
            r == (means_one(timeouts@, *self) && timeouts@[self.number as int].cancelled),
    {
        self.number < timeouts.started.len() && timeouts.started[self.number].cancelled
    }
}

/// All the time that a timeout still sleeps if it is not cancelled.
pub open spec fn sleeps(total_ms: u64, elapsed_ms: u64) -> nat
    decreases total_ms - elapsed_ms,
{
    match next_sleep(total_ms, elapsed_ms) {
        Some(millis) => millis as nat + sleeps(total_ms, (elapsed_ms + millis) as u64),
        None => 0,
    }
}

/// A timeout that is not cancelled fires after exactly its time.
pub proof fn law_timeout_waits_its_time(total_ms: u64, elapsed_ms: u64)
    requires
        elapsed_ms <= total_ms,
    ensures
        sleeps(total_ms, elapsed_ms) == total_ms - elapsed_ms,
    decreases total_ms - elapsed_ms,
{
    match next_sleep(total_ms, elapsed_ms) {
        Some(millis) => {
            law_timeout_waits_its_time(total_ms, (elapsed_ms + millis) as u64);
        },
        None => {},
    }
}

/// Once cancelled, or its handle discarded, a timeout never fires and stays cancelled, for its handle and every
/// clone of it, whatever is done to the timeouts afterwards; and cancelling it again
/// changes nothing.
pub proof fn law_cancelled_for_good(
    timeouts: Seq<Timeout>,
    handle: TimeoutHandle,
    clone: TimeoutHandle,
    actions: Seq<TimeoutAction>,
)
    requires
        means_one(timeouts, handle),
        clone == handle,
    ensures
        ({
            let cancelled = after_action(timeouts, TimeoutAction::Cancel(handle));
            let later = after_actions(cancelled, actions);
            &&& means_one(later, clone) && later[clone.number as int].cancelled
            &&& step_of(later, clone) is Stop
            &&& after_action(later, TimeoutAction::Tick(clone)) == later
            &&& after_action(later, TimeoutAction::Cancel(clone)) == later
        }),
    decreases actions.len(),
{
    let cancelled = after_action(timeouts, TimeoutAction::Cancel(handle));
    let later = after_actions(cancelled, actions);
    if actions.len() > 0 {
        law_cancelled_for_good(timeouts, handle, clone, actions.drop_last());
    }
    assert(after_action(later, TimeoutAction::Tick(clone)) =~= later);
    assert(after_action(later, TimeoutAction::Cancel(clone)) =~= later);
}

/// What is done to other timeouts leaves a timeout as it is.
pub proof fn law_timeouts_do_not_disturb_each_other(
    timeouts: Seq<Timeout>,
    handle: TimeoutHandle,
    actions: Seq<TimeoutAction>,
)
    requires
        means_one(timeouts, handle),
        forall|i: int|
            0 <= i < actions.len() ==> #[trigger] actions[i] != TimeoutAction::Cancel(handle)
                && actions[i] != TimeoutAction::Tick(handle),
    ensures
        means_one(after_actions(timeouts, actions), handle),
        after_actions(timeouts, actions)[handle.number as int] == timeouts[handle.number as int],
    decreases actions.len(),
{
    if actions.len() > 0 {
        let last = actions[actions.len() - 1];
        assert(last == actions.last());
        assert forall|i: int| 0 <= i < actions.drop_last().len() implies
            #[trigger] actions.drop_last()[i] != TimeoutAction::Cancel(handle)
            && actions.drop_last()[i] != TimeoutAction::Tick(handle) by {
            assert(actions.drop_last()[i] == actions[i]);
        }
        law_timeouts_do_not_disturb_each_other(timeouts, handle, actions.drop_last());
    }
}

/// Each passing state is supervised for the time that is configured for it, and no state
/// that may last is supervised.
pub proof fn law_passing_states_are_supervised(config: SupervisionConfig)
    ensures
        supervised_for(config, ConnectionState::Probing) == Some(config.probe_timeout_secs),
        supervised_for(config, ConnectionState::Connecting) == Some(config.connect_timeout_secs),
        supervised_for(config, ConnectionState::AutoReconnecting) == Some(
            config.auto_reconnect_timeout_secs,
        ),
        supervised_for(config, ConnectionState::Disconnecting) == Some(
            config.disconnect_timeout_secs,
        ),
        supervised_for(config, ConnectionState::Reconfiguring) == Some(
            config.reconfigure_timeout_secs,
        ),
        supervised_for(config, ConnectionState::Disconnected) is None,
        supervised_for(config, ConnectionState::Connected) is None,
        supervised_for(config, ConnectionState::DeviceLost) is None,
{
}

/// A started timeout has its whole time before it: as often as it is looked at, it sleeps
/// half a second or what is left of its time, if that is less, and that time passes; when
/// nothing is left, it names its own operation and state, and stays as it is.
pub proof fn law_timeout_runs_down(
    timeouts: Seq<Timeout>,
    handle: TimeoutHandle,
    operation: Seq<char>,
    state: ConnectionState,
    secs: u64,
)
    requires
        handle.number < timeouts.len(),
    ensures
        ({
            let timeout = timeouts[handle.number as int];
            let left = timeout.total_ms - timeout.elapsed_ms;
            let ticked = after_action(timeouts, TimeoutAction::Tick(handle));
            let step = step_of(timeouts, handle);
            &&& just_started(timeout, operation, state, secs) ==> !timeout.cancelled
                && timeout.operation@ == operation && timeout.state == state && left == secs
                * 1000
            &&& !timeout.cancelled && left > 0 ==> ({
                let passed: int = if left > 500 {
                    500
                } else {
                    left
                };
                &&& step matches TimeoutStep::Sleep { millis } && millis == passed
                &&& ticked.len() == timeouts.len()
                &&& ticked[handle.number as int].elapsed_ms == timeout.elapsed_ms + passed
                &&& ticked[handle.number as int].total_ms == timeout.total_ms
                &&& ticked[handle.number as int].cancelled == timeout.cancelled
                &&& ticked[handle.number as int].operation == timeout.operation
                &&& ticked[handle.number as int].state == timeout.state
            })
            &&& !timeout.cancelled && left <= 0 ==> ticked == timeouts && (step
                matches TimeoutStep::Fire(message) && (message
                matches StateMessage::OperationTimeout { operation: o, state: s } && o
                == timeout.operation && s == timeout.state))
            &&& timeout.cancelled ==> ticked == timeouts && step is Stop
        }),
{
    let ticked = after_action(timeouts, TimeoutAction::Tick(handle));
    if looked_at(timeouts[handle.number as int]) == timeouts[handle.number as int] {
        assert(ticked =~= timeouts);
    }
}

/// A timeout that is started comes after all the others, which stay as they are, and its
/// handle means it.
pub proof fn law_started_timeout_comes_last(timeouts: Seq<Timeout>, timeout: Timeout)
    ensures
        after_action(timeouts, TimeoutAction::Start(timeout)).len() == timeouts.len() + 1,
        after_action(timeouts, TimeoutAction::Start(timeout))[timeouts.len() as int] == timeout,
        forall|i: int|
            0 <= i < timeouts.len() ==> #[trigger] after_action(
                timeouts,
                TimeoutAction::Start(timeout),
            )[i] == timeouts[i],
        timeouts.len() <= usize::MAX ==> means_one(
            after_action(timeouts, TimeoutAction::Start(timeout)),
            TimeoutHandle { number: timeouts.len() as usize },
        ),
{
}

/// A handle that means no timeout does nothing.
pub proof fn law_unknown_handle_does_nothing(timeouts: Seq<Timeout>, handle: TimeoutHandle)
    requires
        handle.number >= timeouts.len(),
    ensures
        !means_one(timeouts, handle),
        step_of(timeouts, handle) is Stop,
        after_action(timeouts, TimeoutAction::Tick(handle)) == timeouts,
        after_action(timeouts, TimeoutAction::Cancel(handle)) == timeouts,
{
}

/// Timeouts are started, looked at and cancelled as the model has it: one that is started
/// has its whole time before it, and its handle means it.
pub proof fn law_timeouts_run_as_modelled(
    timeouts: &mut Timeouts,
    operation: &str,
    state: ConnectionState,
    secs: u64,
    started: TimeoutHandle,
    handle: TimeoutHandle,
    step: TimeoutStep,
    cancelled: bool,
    config: SupervisionConfig,
    limit: Option<u64>,
)
    ensures
        call_ensures(spawn_timeout, (timeouts, operation, state, secs), started) ==> {
            &&& started.number == old(timeouts)@.len()
            &&& final(timeouts)@.len() == old(timeouts)@.len() + 1
            &&& final(timeouts)@.drop_last() == old(timeouts)@
            &&& !final(timeouts)@.last().cancelled
            &&& final(timeouts)@.last().operation@ == operation@
            &&& final(timeouts)@.last().state == state
            &&& final(timeouts)@.last().total_ms == secs * 1000
            &&& final(timeouts)@.last().elapsed_ms == 0
        },
        call_ensures(Timeouts::tick, (timeouts, &handle), step) ==> step == step_of(
            old(timeouts)@,
            handle,
        ) && final(timeouts)@ == after_action(old(timeouts)@, TimeoutAction::Tick(handle)),
        call_ensures(TimeoutHandle::cancel, (&handle, timeouts), ()) ==> final(timeouts)@
            == after_action(old(timeouts)@, TimeoutAction::Cancel(handle)),
        call_ensures(TimeoutHandle::discard, (handle, timeouts), ()) ==> final(timeouts)@
            == after_action(old(timeouts)@, TimeoutAction::Cancel(handle)),
        call_ensures(TimeoutHandle::is_cancelled, (&handle, &*old(timeouts)), cancelled) ==> (
        cancelled <==> handle.number < old(timeouts)@.len() && old(
            timeouts
        )@[handle.number as int].cancelled),
        call_ensures(SupervisionConfig::timeout_for, (&config, state), limit) ==> limit
            == supervised_for(config, state),
{
    if call_ensures(spawn_timeout, (timeouts, operation, state, secs), started) {
        assert(final(timeouts)@.drop_last() =~= old(timeouts)@);
    }
}

} // verus!
