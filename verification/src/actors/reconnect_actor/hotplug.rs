//! Looking for a device after something was plugged in.
use vstd::prelude::*;

use crate::actors::backoff::{jittered_delay, jittered_retry_delay};
use crate::actors::constants::reconnect::{GLOBAL_TIMEOUT_MS, INITIAL_DELAY_MS, MAX_RETRIES};
use crate::actors::reconnect_actor::actor::DeviceIdentity;
use crate::actors::reconnect_actor::persistence::{device_text, format_device};
use crate::protocol::messages::{SerialPortInfo, SerialPortInfoView};
use crate::runtime::channels::PortHandle;
use crate::text::hex4;

verus! {

/// What is to be done next to find the device.
#[derive(Debug)]
pub enum PollStep {
    /// Wait, then go on with `next`.
    Wait { millis: u64 },
    /// List the ports, then go on with `listed`.
    List,
    /// Tell the state actor that the device came back.
    Found { port: SerialPortInfo, port_handle: PortHandle },
    /// Stop looking.
    Stop,
}

/// What is to be done next, with its texts as character sequences.
pub enum PollStepView {
    Wait { millis: u64 },
    List,
    Found { port: SerialPortInfoView, port_handle: PortHandle },
    Stop,
}

impl View for PollStep {
    type V = PollStepView;

    open spec fn view(&self) -> PollStepView {
        match *self {
            PollStep::Wait { millis } => PollStepView::Wait { millis },
            PollStep::List => PollStepView::List,
            PollStep::Found { port, port_handle } => PollStepView::Found {
                port: port@,
                port_handle,
            },
            PollStep::Stop => PollStepView::Stop,
        }
    }
}

/// A search for a device that may still be showing up.
#[derive(Debug, Clone, Copy)]
pub struct DevicePoll {
    pub target: DeviceIdentity,
    /// How often the ports have been listed.
    pub attempt: u32,
}

/// A port that belongs to the device.
pub open spec fn is_of(port: PortHandle, target: DeviceIdentity) -> bool {
    port.vid == Some(target.vid) && port.pid == Some(target.pid)
}

/// The position of the first port of the device, from `from` on; the number of
/// ports if there is none.
pub open spec fn port_position(ports: Seq<PortHandle>, target: DeviceIdentity, from: int) -> int
    decreases ports.len() - from,
{
    if from >= ports.len() {
        ports.len() as int
    } else if is_of(ports[from], target) {
        from
    } else {
        port_position(ports, target, from + 1)
    }
}

/// Before another look: stops once all looks are made, once the time is up, and
/// once the device is no longer registered.
pub open spec fn before_look(attempt: u32, elapsed_ms: u64, registered: bool) -> PollStepView {
    if attempt >= MAX_RETRIES || elapsed_ms >= GLOBAL_TIMEOUT_MS || !registered {
        PollStepView::Stop
    } else {
        PollStepView::List
    }
}

/// After a look: the device's first port, or a wait before the next look.
pub open spec fn after_look(
    target: DeviceIdentity,
    attempt: u32,
    ports: Seq<PortHandle>,
    jitter_ms: u64,
) -> PollStepView {
    let at = port_position(ports, target, 0);
    if 0 <= at < ports.len() {
        PollStepView::Found {
            port: SerialPortInfoView {
                path: device_text(target.vid, target.pid),
                vid: Some(target.vid),
                pid: Some(target.pid),
            },
            port_handle: ports[at],
        }
    } else if attempt < MAX_RETRIES {
        PollStepView::Wait { millis: jittered_delay(attempt, jitter_ms) }
    } else {
        PollStepView::Stop
    }
}

impl DevicePoll {
    /// Begins a search: devices take a moment to show up.
    pub fn start(target: DeviceIdentity) -> (r: (DevicePoll, PollStep))
        ensures
            r.0.target == target,
            r.0.attempt == 0,
            r.1@ == (PollStepView::Wait { millis: INITIAL_DELAY_MS }),
    {
        (DevicePoll { target, attempt: 0 }, PollStep::Wait { millis: INITIAL_DELAY_MS })
    }

    /// Looks again, or stops. `registered` says whether the device is still wanted.
    pub fn next(&mut self, elapsed_ms: u64, registered: bool) -> (r: PollStep)
        ensures
            r@ == before_look(old(self).attempt, elapsed_ms, registered),
            final(self).target == old(self).target,
            final(self).attempt == if r is List {
                old(self).attempt + 1
            } else {
                old(self).attempt as int
            },
    {
        if self.attempt >= MAX_RETRIES || elapsed_ms >= GLOBAL_TIMEOUT_MS || !registered {
            PollStep::Stop
        } else {
            self.attempt = self.attempt + 1;
            PollStep::List
        }
    }

    /// Takes in the ports that are there.
    pub fn listed(&self, ports: &[PortHandle], jitter_ms: u64) -> (r: PollStep)
        ensures
            r@ == after_look(self.target, self.attempt, ports@, jitter_ms),
    {
        let mut i: usize = 0;
        while i < ports.len()
            invariant
                i <= ports.len(),
                port_position(ports@, self.target, 0) == port_position(
                    ports@,
                    self.target,
                    i as int,
                ),
            decreases ports.len() - i,
        {
            let port = ports[i];
            if port.vid == Some(self.target.vid) && port.pid == Some(self.target.pid) {
                return PollStep::Found {
                    port: SerialPortInfo {
                        path: format_device(self.target.vid, self.target.pid),
                        vid: Some(self.target.vid),
                        pid: Some(self.target.pid),
                    },
                    port_handle: port,
                };
            }
            i += 1;
        }
        if self.attempt < MAX_RETRIES {
            PollStep::Wait { millis: jittered_retry_delay(self.attempt, jitter_ms) }
        } else {
            PollStep::Stop
        }
    }
}

/// The ports are listed no more often than is allowed, and after the last look
/// without the device the search stops.
pub proof fn law_search_is_bounded(
    target: DeviceIdentity,
    attempt: u32,
    ports: Seq<PortHandle>,
    elapsed_ms: u64,
    jitter_ms: u64,
)
    requires
        attempt >= MAX_RETRIES,
        port_position(ports, target, 0) == ports.len(),
    ensures
        before_look(attempt, elapsed_ms, true) is Stop,
        after_look(target, attempt, ports, jitter_ms) is Stop,
{
}

/// Only a port of the device is ever reported.
pub proof fn law_only_the_device_is_found(
    target: DeviceIdentity,
    attempt: u32,
    ports: Seq<PortHandle>,
    jitter_ms: u64,
)
    ensures
        after_look(target, attempt, ports, jitter_ms) matches PollStepView::Found {
            port,
            port_handle,
        } ==> is_of(port_handle, target) && ports.contains(port_handle) && port.vid == Some(
            target.vid,
        ) && port.pid == Some(target.pid),
{
    lemma_port_position(ports, target, 0);
}

proof fn lemma_port_position(ports: Seq<PortHandle>, target: DeviceIdentity, from: int)
    requires
        0 <= from <= ports.len(),
    ensures
        from <= port_position(ports, target, from) <= ports.len(),
        port_position(ports, target, from) < ports.len() ==> is_of(
            ports[port_position(ports, target, from)],
            target,
        ),
    decreases ports.len() - from,
{
    if from < ports.len() && !is_of(ports[from], target) {
        lemma_port_position(ports, target, from + 1);
    }
}

/// A device that is among the listed ports is found, wherever in the list it stands and
/// whatever the attempt: the first port with its vendor and product is told, under the
/// device's own identifiers.
pub proof fn law_device_that_is_listed_is_found(
    target: DeviceIdentity,
    attempt: u32,
    ports: Seq<PortHandle>,
    jitter_ms: u64,
    at: int,
)
    requires
        0 <= at < ports.len(),
        ports[at].vid == Some(target.vid),
        ports[at].pid == Some(target.pid),
        forall|i: int|
            0 <= i < at ==> (#[trigger] ports[i]).vid != Some(target.vid) || ports[i].pid != Some(
                target.pid,
            ),
    ensures
        after_look(target, attempt, ports, jitter_ms) matches PollStepView::Found {
            port,
            port_handle,
        } && port_handle == ports[at] && port.vid == Some(target.vid) && port.pid == Some(target.pid)
            && port.path == hex4(target.vid as int) + seq![':'] + hex4(target.pid as int),
{
    lemma_port_position(ports, target, 0);
    lemma_port_position_is_first(ports, target, 0, at);
    let found = port_position(ports, target, 0);
    if found < at {
        assert(is_of(ports[found], target));
    }
}

proof fn lemma_port_position_is_first(
    ports: Seq<PortHandle>,
    target: DeviceIdentity,
    from: int,
    at: int,
)
    requires
        0 <= from <= at < ports.len(),
        ports[at].vid == Some(target.vid) && ports[at].pid == Some(target.pid),
    ensures
        port_position(ports, target, from) <= at,
    decreases at - from,
{
    if from < at && !is_of(ports[from], target) {
        lemma_port_position_is_first(ports, target, from + 1, at);
    }
}

/// A device of which some port is listed is found.
pub proof fn law_device_that_is_there_is_found(
    target: DeviceIdentity,
    attempt: u32,
    ports: Seq<PortHandle>,
    jitter_ms: u64,
)
    requires
        exists|i: int|
            0 <= i < ports.len() && (#[trigger] ports[i]).vid == Some(target.vid) && ports[i].pid
                == Some(target.pid),
    ensures
        after_look(target, attempt, ports, jitter_ms) is Found,
{
    let at = choose|i: int|
        0 <= i < ports.len() && (#[trigger] ports[i]).vid == Some(target.vid) && ports[i].pid
            == Some(target.pid);
    lemma_port_position(ports, target, 0);
    lemma_port_position_is_first(ports, target, 0, at);
}

/// A device that is not listed is looked for again, after 100 ms at first, 200 ms, 400 ms
/// and 800 ms then, with the jitter on top, and given up after the fifth look.
pub proof fn law_device_that_is_not_there_is_waited_for(
    target: DeviceIdentity,
    attempt: u32,
    ports: Seq<PortHandle>,
    jitter_ms: u64,
)
    requires
        forall|i: int|
            0 <= i < ports.len() ==> (#[trigger] ports[i]).vid != Some(target.vid) || ports[i].pid
                != Some(target.pid),
        jitter_ms <= 1000,
    ensures
        ({
            let step = after_look(target, attempt, ports, jitter_ms);
            &&& attempt == 1 ==> step == (PollStepView::Wait { millis: (100 + jitter_ms) as u64 })
            &&& attempt == 2 ==> step == (PollStepView::Wait { millis: (200 + jitter_ms) as u64 })
            &&& attempt == 3 ==> step == (PollStepView::Wait { millis: (400 + jitter_ms) as u64 })
            &&& attempt == 4 ==> step == (PollStepView::Wait { millis: (800 + jitter_ms) as u64 })
            &&& attempt >= 5 ==> step is Stop
        }),
{
    lemma_port_position(ports, target, 0);
    vstd::arithmetic::power2::lemma2_to64();
    let at = port_position(ports, target, 0);
    if at < ports.len() {
        assert(is_of(ports[at], target));
    }
}

/// There are at most five looks, within five seconds, and only while the device is still
/// wanted; up to then there is another.
pub proof fn law_search_goes_on_until_it_may_not(attempt: u32, elapsed_ms: u64, registered: bool)
    ensures
        attempt < 5 && elapsed_ms < 5000 && registered ==> before_look(
            attempt,
            elapsed_ms,
            registered,
        ) is List,
        attempt >= 5 || elapsed_ms >= 5000 || !registered ==> before_look(
            attempt,
            elapsed_ms,
            registered,
        ) is Stop,
{
}

/// A look at the ports finds the device exactly if some port is of it: the first such port,
/// under the device's own name and numbers.
pub proof fn law_looking_finds_the_first_port(
    poll: DevicePoll,
    ports: &[PortHandle],
    jitter_ms: u64,
    r: PollStep,
)
    requires
        call_ensures(DevicePoll::listed, (&poll, ports, jitter_ms), r),
    ensures
        (exists|i: int|
            0 <= i < ports@.len() && (#[trigger] ports@[i]).vid == Some(poll.target.vid)
                && ports@[i].pid == Some(poll.target.pid)) <==> r is Found,
        r matches PollStep::Found { port, port_handle } ==> {
            &&& port_handle.vid == Some(poll.target.vid) && port_handle.pid == Some(
                poll.target.pid,
            )
            &&& port.vid == Some(poll.target.vid) && port.pid == Some(poll.target.pid)
            &&& port.path@ == hex4(poll.target.vid as int) + seq![':'] + hex4(
                poll.target.pid as int,
            )
            &&& exists|i: int|
                0 <= i < ports@.len() && #[trigger] ports@[i] == port_handle && forall|j: int|
                    0 <= j < i ==> (#[trigger] ports@[j]).vid != Some(poll.target.vid)
                        || ports@[j].pid != Some(poll.target.pid)
        },
        !(r is List),
{
    let at = port_position(ports@, poll.target, 0);
    lemma_port_position(ports@, poll.target, 0);
    if exists|i: int|
        0 <= i < ports@.len() && (#[trigger] ports@[i]).vid == Some(poll.target.vid)
            && ports@[i].pid == Some(poll.target.pid) {
        law_device_that_is_there_is_found(poll.target, poll.attempt, ports@, jitter_ms);
    }
    assert(r@ is Found <==> r is Found);
    if at < ports@.len() {
        assert(is_of(ports@[at], poll.target));
        assert forall|j: int| 0 <= j < at implies (#[trigger] ports@[j]).vid != Some(
            poll.target.vid,
        ) || ports@[j].pid != Some(poll.target.pid) by {
            if is_of(ports@[j], poll.target) {
                lemma_port_position_is_first(ports@, poll.target, 0, j);
            }
        }
        assert(ports@[at] == ports@[at]);
    }
}

/// A search begins after 50 ms with no look made; it goes on with a look, which counts,
/// while fewer than five were made within five seconds and the device is wanted, and stops
/// otherwise; it is for the same device all the time.
pub proof fn law_searches_go_on(
    target: DeviceIdentity,
    begun: (DevicePoll, PollStep),
    poll: &mut DevicePoll,
    elapsed_ms: u64,
    registered: bool,
    r: PollStep,
)
    requires
        call_ensures(DevicePoll::start, (target,), begun),
        call_ensures(DevicePoll::next, (poll, elapsed_ms, registered), r),
    ensures
        begun.0.target == target && begun.0.attempt == 0,
        begun.1 matches PollStep::Wait { millis } && millis == 50,
        old(poll).attempt < 5 && elapsed_ms < 5000 && registered ==> r is List && final(poll).attempt == old(poll).attempt + 1,
        !(old(poll).attempt < 5 && elapsed_ms < 5000 && registered) ==> r is Stop && final(poll).attempt == old(poll).attempt,
        final(poll).target == old(poll).target,
{
}

} // verus!
