//! The connection state machine's states and the transitions between them.
use vstd::prelude::*;

verus! {

/// The bits of a stored byte that hold the state.
pub const STATE_MASK: u8 = 0x7F;

/// The bit of a stored byte that marks it as locked.
pub const LOCK_FLAG: u8 = 0x80;

/// Where a connection stands.
#[derive(Debug, Clone, Copy, PartialEq, Eq, Structural)]
pub enum ConnectionState {
    /// No active connection, ready to connect.
    Disconnected,
    /// Probing a port to detect its settings.
    Probing,
    /// Opening a port.
    Connecting,
    /// Connected and operational.
    Connected,
    /// Changing the baud rate or the serial parameters.
    Reconfiguring,
    /// Tearing a connection down.
    Disconnecting,
    /// The device went away; waiting for it.
    DeviceLost,
    /// The device came back; opening it again.
    AutoReconnecting,
}

/// The transitions that the state machine allows.
pub open spec fn may_follow(from: ConnectionState, to: ConnectionState) -> bool {
    match from {
        ConnectionState::Disconnected => to is Probing || to is Connecting || to is Disconnected,
        ConnectionState::Probing => to is Connecting || to is Disconnecting || to is Disconnected
            || to is AutoReconnecting,
        ConnectionState::Connecting => to is Connected || to is Disconnecting || to is Disconnected
            || to is DeviceLost,
        ConnectionState::Connected => to is Reconfiguring || to is Disconnecting || to is DeviceLost
            || to is AutoReconnecting,
        ConnectionState::Reconfiguring => to is Connected || to is DeviceLost || to is Connecting
            || to is Disconnecting,
        ConnectionState::Disconnecting => to is Disconnected || to is Connecting,
        ConnectionState::DeviceLost => to is Disconnected || to is Disconnecting
            || to is AutoReconnecting || to is Connecting || to is DeviceLost,
        ConnectionState::AutoReconnecting => to is Connected || to is DeviceLost
            || to is Disconnected || to is Disconnecting || to is AutoReconnecting,
    }
}

/// The states from which the user can disconnect: all those in which a connection is
/// wanted.
pub open spec fn user_can_disconnect(state: ConnectionState) -> bool {
    state is Probing || state is Connecting || state is Connected || state is Reconfiguring
        || state is AutoReconnecting || state is DeviceLost
}

/// The number under which a state is stored.
pub open spec fn state_number(state: ConnectionState) -> u8 {
    match state {
        ConnectionState::Disconnected => 0,
        ConnectionState::Probing => 1,
        ConnectionState::Connecting => 2,
        ConnectionState::Connected => 3,
        ConnectionState::Reconfiguring => 4,
        ConnectionState::Disconnecting => 5,
        ConnectionState::DeviceLost => 6,
        ConnectionState::AutoReconnecting => 7,
    }
}

/// The state that a stored byte holds, whatever its lock bit.
pub open spec fn stored_state(value: u8) -> Option<ConnectionState> {
    match value % 128 {
        0 => Some(ConnectionState::Disconnected),
        1 => Some(ConnectionState::Probing),
        2 => Some(ConnectionState::Connecting),
        3 => Some(ConnectionState::Connected),
        4 => Some(ConnectionState::Reconfiguring),
        5 => Some(ConnectionState::Disconnecting),
        6 => Some(ConnectionState::DeviceLost),
        7 => Some(ConnectionState::AutoReconnecting),
        _ => None,
    }
}

/// The user-facing text of a state.
pub open spec fn status_of(state: ConnectionState) -> Seq<char> {
    match state {
        ConnectionState::Disconnected => "Ready to connect"@,
        ConnectionState::Probing => "Detecting firmware..."@,
        ConnectionState::Connecting => "Connecting..."@,
        ConnectionState::Connected => "Connected"@,
        ConnectionState::Reconfiguring => "Reconfiguring..."@,
        ConnectionState::Disconnecting => "Disconnecting..."@,
        ConnectionState::DeviceLost => "Device Lost (waiting for device...)"@,
        ConnectionState::AutoReconnecting => "Device found. Auto-reconnecting..."@,
    }
}

/// The name of a state.
pub open spec fn name_of(state: ConnectionState) -> Seq<char> {
    match state {
        ConnectionState::Disconnected => "Disconnected"@,
        ConnectionState::Probing => "Probing"@,
        ConnectionState::Connecting => "Connecting"@,
        ConnectionState::Connected => "Connected"@,
        ConnectionState::Reconfiguring => "Reconfiguring"@,
        ConnectionState::Disconnecting => "Disconnecting"@,
        ConnectionState::DeviceLost => "DeviceLost"@,
        ConnectionState::AutoReconnecting => "AutoReconnecting"@,
    }
}

impl ConnectionState {
    /// Can the user trigger a disconnect?
    pub fn can_disconnect(&self) -> (r: bool)
        ensures
            r == user_can_disconnect(*self),
    {
        match self {
            ConnectionState::Probing
            | ConnectionState::Connecting
            | ConnectionState::Connected
            | ConnectionState::Reconfiguring
            | ConnectionState::AutoReconnecting
            | ConnectionState::DeviceLost => true,
            _ => false,
        }
    }

    /// Should the button show "Disconnect"?
    pub fn button_shows_disconnect(&self) -> (r: bool)
        ensures
            r == user_can_disconnect(*self),
    {
        self.can_disconnect()
    }

    /// The colour of the status indicator: green when connected, red when
    /// disconnected, orange otherwise.
    pub fn indicator_color(&self) -> (r: &'static str)
        ensures
            *self is Connected ==> r@ == "rgb(95, 200, 85)"@,
            *self is Disconnected ==> r@ == "rgb(240, 105, 95)"@,
            !(*self is Connected) && !(*self is Disconnected) ==> r@ == "rgb(245, 190, 80)"@,
    {
        match self {
            ConnectionState::Connected => "rgb(95, 200, 85)",
            ConnectionState::Disconnected => "rgb(240, 105, 95)",
            _ => "rgb(245, 190, 80)",
        }
    }

    /// Should the indicator pulse?
    pub fn indicator_should_pulse(&self) -> (r: bool)
        ensures
            r == (*self is AutoReconnecting || *self is DeviceLost),
    {
        match self {
            ConnectionState::AutoReconnecting | ConnectionState::DeviceLost => true,
            _ => false,
        }
    }

    /// User-facing status text.
    pub fn status_text(&self) -> (r: &'static str)
        ensures
            r@ == status_of(*self),
    {
        match self {
            ConnectionState::Disconnected => "Ready to connect",
            ConnectionState::Probing => "Detecting firmware...",
            ConnectionState::Connecting => "Connecting...",
            ConnectionState::Connected => "Connected",
            ConnectionState::Reconfiguring => "Reconfiguring...",
            ConnectionState::Disconnecting => "Disconnecting...",
            ConnectionState::DeviceLost => "Device Lost (waiting for device...)",
            ConnectionState::AutoReconnecting => "Device found. Auto-reconnecting...",
        }
    }

    /// The state's name, as error messages show it.
    pub fn name(&self) -> (r: &'static str)
        ensures
            r@ == name_of(*self),
    {
        match self {
            ConnectionState::Disconnected => "Disconnected",
            ConnectionState::Probing => "Probing",
            ConnectionState::Connecting => "Connecting",
            ConnectionState::Connected => "Connected",
            ConnectionState::Reconfiguring => "Reconfiguring",
            ConnectionState::Disconnecting => "Disconnecting",
            ConnectionState::DeviceLost => "DeviceLost",
            ConnectionState::AutoReconnecting => "AutoReconnecting",
        }
    }

    /// Is the transition to `new_state` allowed?
    pub fn can_transition_to(&self, new_state: ConnectionState) -> (r: bool)
        ensures
            r == may_follow(*self, new_state),
    {
        match (self, new_state) {
            // User starts auto-detection, connects directly, or nothing changes.
            (ConnectionState::Disconnected, ConnectionState::Probing) => true,
            (ConnectionState::Disconnected, ConnectionState::Connecting) => true,
            (ConnectionState::Disconnected, ConnectionState::Disconnected) => true,
            // Probe complete, cancelled, failed, or the device came back meanwhile.
            (ConnectionState::Probing, ConnectionState::Connecting) => true,
            (ConnectionState::Probing, ConnectionState::Disconnecting) => true,
            (ConnectionState::Probing, ConnectionState::Disconnected) => true,
            (ConnectionState::Probing, ConnectionState::AutoReconnecting) => true,
            // Opened, cancelled, failed, or unplugged while connecting.
            (ConnectionState::Connecting, ConnectionState::Connected) => true,
            (ConnectionState::Connecting, ConnectionState::Disconnecting) => true,
            (ConnectionState::Connecting, ConnectionState::Disconnected) => true,
            (ConnectionState::Connecting, ConnectionState::DeviceLost) => true,
            // Baud change, user disconnect, or unplugged.
            (ConnectionState::Connected, ConnectionState::Reconfiguring) => true,
            (ConnectionState::Connected, ConnectionState::Disconnecting) => true,
            (ConnectionState::Connected, ConnectionState::DeviceLost) => true,
            (ConnectionState::Connected, ConnectionState::AutoReconnecting) => true,
            // Reconfiguration complete, port closing or opening again, or unplugged
            // meanwhile.
            (ConnectionState::Reconfiguring, ConnectionState::Connected) => true,
            (ConnectionState::Reconfiguring, ConnectionState::Connecting) => true,
            (ConnectionState::Reconfiguring, ConnectionState::Disconnecting) => true,
            (ConnectionState::Reconfiguring, ConnectionState::DeviceLost) => true,
            // Disconnect complete, or port closed to be opened with new settings.
            (ConnectionState::Disconnecting, ConnectionState::Disconnected) => true,
            (ConnectionState::Disconnecting, ConnectionState::Connecting) => true,
            // User gives up, device replugged, or manual reconnect.
            (ConnectionState::DeviceLost, ConnectionState::Disconnected) => true,
            (ConnectionState::DeviceLost, ConnectionState::Disconnecting) => true,
            (ConnectionState::DeviceLost, ConnectionState::AutoReconnecting) => true,
            (ConnectionState::DeviceLost, ConnectionState::Connecting) => true,
            (ConnectionState::DeviceLost, ConnectionState::DeviceLost) => true,
            // Reconnected, failed, cancelled, or tried again.
            (ConnectionState::AutoReconnecting, ConnectionState::Connected) => true,
            (ConnectionState::AutoReconnecting, ConnectionState::DeviceLost) => true,
            (ConnectionState::AutoReconnecting, ConnectionState::Disconnected) => true,
            (ConnectionState::AutoReconnecting, ConnectionState::Disconnecting) => true,
            (ConnectionState::AutoReconnecting, ConnectionState::AutoReconnecting) => true,
            _ => false,
        }
    }

    /// The number under which the state is stored, in 0 to 7.
    pub fn to_u8(self) -> (r: u8)
        ensures
            r == state_number(self),
    {
        match self {
            ConnectionState::Disconnected => 0,
            ConnectionState::Probing => 1,
            ConnectionState::Connecting => 2,
            ConnectionState::Connected => 3,
            ConnectionState::Reconfiguring => 4,
            ConnectionState::Disconnecting => 5,
            ConnectionState::DeviceLost => 6,
            ConnectionState::AutoReconnecting => 7,
        }
    }

    /// The state that a stored byte holds; its lock bit is ignored. `None` if the
    /// rest of the byte is no state's number.
    pub fn from_u8(value: u8) -> (r: Option<ConnectionState>)
        ensures
            r == stored_state(value),
    {
        assert(value & 0x7F == value % 128) by (bit_vector);
        match value & STATE_MASK {
            0 => Some(ConnectionState::Disconnected),
            1 => Some(ConnectionState::Probing),
            2 => Some(ConnectionState::Connecting),
            3 => Some(ConnectionState::Connected),
            4 => Some(ConnectionState::Reconfiguring),
            5 => Some(ConnectionState::Disconnecting),
            6 => Some(ConnectionState::DeviceLost),
            7 => Some(ConnectionState::AutoReconnecting),
            _ => None,
        }
    }
}

/// A state's number gives the state back, with the lock bit set or clear.
pub proof fn law_stored_state_round_trip(state: ConnectionState)
    ensures
        stored_state(state_number(state)) == Some(state),
        stored_state(state_number(state) | LOCK_FLAG) == Some(state),
        state_number(state) & LOCK_FLAG == 0,
{
    let n = state_number(state);
    assert(n < 8 ==> (n | 0x80u8) % 128 == n && n & 0x80u8 == 0) by (bit_vector);
}

/// A stored byte that holds a state is that state's number, but for the lock bit.
pub proof fn law_stored_byte_round_trip(value: u8)
    ensures
        stored_state(value) matches Some(state) ==> state_number(state) == value & STATE_MASK,
{
    assert(value & 0x7F == value % 128) by (bit_vector);
}

/// Only a connection that is being opened, opened again or reconfigured can become connected.
pub proof fn law_connected_only_after_opening(from: ConnectionState)
    ensures
        may_follow(from, ConnectionState::Connected) <==> from is Connecting
            || from is AutoReconnecting || from is Reconfiguring,
{
}

/// Every state from which the user can disconnect may be torn down, and tearing
/// down ends only in the disconnected state, unless the port is opened again.
pub proof fn law_disconnect_is_possible(state: ConnectionState)
    ensures
        user_can_disconnect(state) ==> may_follow(state, ConnectionState::Disconnecting),
        forall|to: ConnectionState|
            may_follow(ConnectionState::Disconnecting, to) <==> to is Disconnected
                || to is Connecting,
{
}

/// The states that may come next, one by one.
pub open spec fn successors(from: ConnectionState) -> Seq<ConnectionState> {
    match from {
        ConnectionState::Disconnected => seq![
            ConnectionState::Disconnected,
            ConnectionState::Probing,
            ConnectionState::Connecting,
        ],
        ConnectionState::Probing => seq![
            ConnectionState::Connecting,
            ConnectionState::Disconnecting,
            ConnectionState::Disconnected,
            ConnectionState::AutoReconnecting,
        ],
        ConnectionState::Connecting => seq![
            ConnectionState::Connected,
            ConnectionState::Disconnecting,
            ConnectionState::Disconnected,
            ConnectionState::DeviceLost,
        ],
        ConnectionState::Connected => seq![
            ConnectionState::Reconfiguring,
            ConnectionState::Disconnecting,
            ConnectionState::DeviceLost,
            ConnectionState::AutoReconnecting,
        ],
        ConnectionState::Reconfiguring => seq![
            ConnectionState::Connected,
            ConnectionState::Connecting,
            ConnectionState::Disconnecting,
            ConnectionState::DeviceLost,
        ],
        ConnectionState::Disconnecting => seq![
            ConnectionState::Disconnected,
            ConnectionState::Connecting,
        ],
        ConnectionState::DeviceLost => seq![
            ConnectionState::Disconnected,
            ConnectionState::Disconnecting,
            ConnectionState::AutoReconnecting,
            ConnectionState::Connecting,
            ConnectionState::DeviceLost,
        ],
        ConnectionState::AutoReconnecting => seq![
            ConnectionState::Connected,
            ConnectionState::DeviceLost,
            ConnectionState::Disconnected,
            ConnectionState::Disconnecting,
            ConnectionState::AutoReconnecting,
        ],
    }
}

/// A state is followed by exactly the states that its part of the connection's life allows.
pub proof fn law_states_follow_each_other_as_listed(from: ConnectionState, to: ConnectionState)
    ensures
        may_follow(from, to) <==> exists|i: int|
            0 <= i < successors(from).len() && #[trigger] successors(from)[i] == to,
{
    let all = successors(from);
    let first = all[0] == to || all[1] == to;
    let more = all.len() > 2 && all[2] == to || all.len() > 3 && all[3] == to || all.len() > 4
        && all[4] == to;
    assert(may_follow(from, to) <==> first || more);
    if exists|i: int| 0 <= i < all.len() && #[trigger] all[i] == to {
        let i = choose|i: int| 0 <= i < all.len() && #[trigger] all[i] == to;
        assert(i == 0 || i == 1 || i == 2 || i == 3 || i == 4);
    }
}

/// The user can disconnect in every state but the two in which nothing is connected any
/// more.
pub proof fn law_user_can_disconnect_what_is_wanted(state: ConnectionState)
    ensures
        user_can_disconnect(state) <==> state != ConnectionState::Disconnected && state
            != ConnectionState::Disconnecting,
{
}

/// Every state has its own number, below eight, and what is stored with the lock bit is
/// read like what is stored without it.
pub proof fn law_states_have_numbers_of_their_own(a: ConnectionState, b: ConnectionState, value: u8)
    ensures
        state_number(a) < 8,
        state_number(a) == state_number(b) ==> a == b,
        state_number(ConnectionState::Disconnected) == 0,
        value < 128 ==> stored_state((value + 128) as u8) == stored_state(value),
        8 <= value < 128 ==> stored_state(value) is None,
        value < 8 ==> stored_state(value) is Some,
{
}

/// The user interface shows each state by a text and a colour of its own: green when
/// connected, red when disconnected, yellow in between; it pulses while a device is waited
/// for or opened again.
pub proof fn law_states_are_shown(
    state: ConnectionState,
    text: &'static str,
    name: &'static str,
    colour: &'static str,
    pulses: bool,
    button: bool,
    can: bool,
)
    requires
        call_ensures(ConnectionState::status_text, (&state,), text),
        call_ensures(ConnectionState::name, (&state,), name),
        call_ensures(ConnectionState::indicator_color, (&state,), colour),
        call_ensures(ConnectionState::indicator_should_pulse, (&state,), pulses),
        call_ensures(ConnectionState::button_shows_disconnect, (&state,), button),
        call_ensures(ConnectionState::can_disconnect, (&state,), can),
    ensures
        text@ == match state {
            ConnectionState::Disconnected => "Ready to connect"@,
            ConnectionState::Probing => "Detecting firmware..."@,
            ConnectionState::Connecting => "Connecting..."@,
            ConnectionState::Connected => "Connected"@,
            ConnectionState::Reconfiguring => "Reconfiguring..."@,
            ConnectionState::Disconnecting => "Disconnecting..."@,
            ConnectionState::DeviceLost => "Device Lost (waiting for device...)"@,
            ConnectionState::AutoReconnecting => "Device found. Auto-reconnecting..."@,
        },
        name@ == match state {
            ConnectionState::Disconnected => "Disconnected"@,
            ConnectionState::Probing => "Probing"@,
            ConnectionState::Connecting => "Connecting"@,
            ConnectionState::Connected => "Connected"@,
            ConnectionState::Reconfiguring => "Reconfiguring"@,
            ConnectionState::Disconnecting => "Disconnecting"@,
            ConnectionState::DeviceLost => "DeviceLost"@,
            ConnectionState::AutoReconnecting => "AutoReconnecting"@,
        },
        colour@ == (if state is Connected {
            "rgb(95, 200, 85)"@
        } else if state is Disconnected {
            "rgb(240, 105, 95)"@
        } else {
            "rgb(245, 190, 80)"@
        }),
        pulses <==> state is AutoReconnecting || state is DeviceLost,
        button == can,
        can == user_can_disconnect(state),
{
}

/// States are stored, read back and allowed to follow each other as the model has it.
pub proof fn law_states_are_stored(
    state: ConnectionState,
    to: ConnectionState,
    allowed: bool,
    number: u8,
    value: u8,
    back: Option<ConnectionState>,
)
    requires
        call_ensures(ConnectionState::can_transition_to, (&state, to), allowed),
        call_ensures(ConnectionState::to_u8, (state,), number),
        call_ensures(ConnectionState::from_u8, (value,), back),
    ensures
        allowed <==> successors(state).contains(to),
        number == state_number(state),
        value == number ==> back == Some(state),
        back == stored_state(value),
{
    law_stored_state_round_trip(state);
    law_states_follow_each_other_as_listed(state, to);
}

} // verus!
