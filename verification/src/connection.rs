//! The connection manager: the state machine that keeps a serial link alive.
//!
//! The manager performs no I/O itself. In every state exactly one action is
//! pending; the driver performs it and reports the outcome as an event, and
//! the manager answers with the next action. Connecting means: list the
//! available ports, open the first one, and on any failure wait for the retry
//! delay and start over, for as long as it takes. A read error that signals a
//! removed device starts connecting again; every other read error leaves the
//! link as it is.

use vstd::prelude::*;

verus! {

/// The line speeds that the telemetry link uses.
#[derive(Debug, Clone, Copy, PartialEq, Eq, Structural)]
pub enum BaudRate {
    B9600,
    B115200,
}

impl BaudRate {
    /// The speed in bits per second.
    pub open spec fn spec_bits_per_second(self) -> u32 {
        match self {
            BaudRate::B9600 => 9600,
            BaudRate::B115200 => 115200,
        }
    }

    /// The speed in bits per second.
    pub fn bits_per_second(self) -> (bps: u32)
        ensures
            bps == self.spec_bits_per_second(),
    {
        match self {
            BaudRate::B9600 => 9600,
            BaudRate::B115200 => 115200,
        }
    }
}

/// The parameters of the link.
#[derive(Debug, Clone, Copy, PartialEq, Eq, Structural)]
pub struct LinkConfig {
    /// Line speed of the port.
    pub baud_rate: BaudRate,
    /// How long one read waits for data, in milliseconds.
    pub read_timeout_ms: u64,
    /// How long to wait before connecting is tried again, in milliseconds.
    pub retry_delay_ms: u64,
}

impl LinkConfig {
    /// 9600 baud, reads that wait 50 ms, and 50 ms between connection attempts.
    pub open spec fn spec_standard() -> LinkConfig {
        LinkConfig { baud_rate: BaudRate::B9600, read_timeout_ms: 50, retry_delay_ms: 50 }
    }

    /// The standard parameters.
    pub fn standard() -> (config: LinkConfig)
        ensures
            config == Self::spec_standard(),
    {
        LinkConfig { baud_rate: BaudRate::B9600, read_timeout_ms: 50, retry_delay_ms: 50 }
    }
}

/// The kinds of I/O error that a read can report.
#[derive(Debug, Clone, Copy, PartialEq, Eq, Structural)]
pub enum ReadErrorKind {
    /// The other end of the link is gone.
    BrokenPipe,
    /// No data arrived within the read timeout.
    TimedOut,
    /// Any other error.
    Other,
}

/// What a read error means for the link.
#[derive(Debug, Clone, Copy, PartialEq, Eq, Structural)]
pub enum ErrorClass {
    /// The device was removed; the link has to be established again.
    Disconnect,
    /// The link is still there; reading goes on.
    Transient,
}

/// Only a broken pipe signals a removed device.
pub open spec fn spec_classify(kind: ReadErrorKind) -> ErrorClass {
    match kind {
        ReadErrorKind::BrokenPipe => ErrorClass::Disconnect,
        _ => ErrorClass::Transient,
    }
}

/// Classifies a read error.
pub fn classify(kind: ReadErrorKind) -> (class: ErrorClass)
    ensures
        class == spec_classify(kind),
{
    match kind {
        ReadErrorKind::BrokenPipe => ErrorClass::Disconnect,
        _ => ErrorClass::Transient,
    }
}

/// The state of the link. `Listing`, `Opening` and `Waiting` are the steps of
/// connecting; in `Connected` a port is open and reads are under way.
#[derive(Debug, Clone, Copy, PartialEq, Eq, Structural)]
pub enum LinkState {
    /// No port is open; the available ports are being listed.
    Listing,
    /// No port is open; the first listed port is being opened.
    Opening,
    /// No port is open; the retry delay is running.
    Waiting,
    /// A port is open.
    Connected,
}

/// What the driver reports back after performing an action.
#[derive(Debug, Clone, Copy, PartialEq, Eq, Structural)]
pub enum LinkEvent {
    /// The ports were listed; `count` of them are available.
    PortsListed { count: usize },
    /// The port was opened.
    OpenSucceeded,
    /// The port could not be opened.
    OpenFailed,
    /// The retry delay has passed.
    DelayElapsed,
    /// A read returned, with or without data.
    ReadCompleted,
    /// A read failed.
    ReadFailed { kind: ReadErrorKind },
}

/// What the driver has to do next.
#[derive(Debug, Clone, Copy, PartialEq, Eq, Structural)]
pub enum LinkAction {
    /// Close the port if one is open, and list the available serial ports.
    ListPorts,
    /// Open the port at position `index` of the list with these parameters.
    /// The manager always picks the first port, whatever device it is.
    OpenPort { index: usize, baud_rate: u32, timeout_ms: u64 },
    /// Wait this long.
    Wait { millis: u64 },
    /// Read from the open port.
    Read,
}

/// The state after an event. An event that is not the outcome of the action
/// pending in the state changes nothing.
pub open spec fn spec_next_state(state: LinkState, event: LinkEvent) -> LinkState {
    match (state, event) {
        (LinkState::Listing, LinkEvent::PortsListed { count }) => if count > 0 {
            LinkState::Opening
        } else {
            LinkState::Waiting
        },
        (LinkState::Opening, LinkEvent::OpenSucceeded) => LinkState::Connected,
        (LinkState::Opening, LinkEvent::OpenFailed) => LinkState::Waiting,
        (LinkState::Waiting, LinkEvent::DelayElapsed) => LinkState::Listing,
        (LinkState::Connected, LinkEvent::ReadFailed { kind }) => if spec_classify(kind)
            == ErrorClass::Disconnect {
            LinkState::Listing
        } else {
            LinkState::Connected
        },
        _ => state,
    }
}

/// The action that is pending in a state.
pub open spec fn spec_pending_action(state: LinkState, config: LinkConfig) -> LinkAction {
    match state {
        LinkState::Listing => LinkAction::ListPorts,
        LinkState::Opening => LinkAction::OpenPort {
            index: 0,
            baud_rate: config.baud_rate.spec_bits_per_second(),
            timeout_ms: config.read_timeout_ms,
        },
        LinkState::Waiting => LinkAction::Wait { millis: config.retry_delay_ms },
        LinkState::Connected => LinkAction::Read,
    }
}

/// Whether the event makes the manager give up an open port and start
/// connecting: a read error of the disconnect class while connected.
pub open spec fn spec_starts_connect(state: LinkState, event: LinkEvent) -> bool {
    &&& state == LinkState::Connected
    &&& event matches LinkEvent::ReadFailed { kind }
    &&& spec_classify(kind) == ErrorClass::Disconnect
}

/// The state after a sequence of events, handled in order.
pub open spec fn spec_run(state: LinkState, events: Seq<LinkEvent>) -> LinkState
    decreases events.len(),
{
    if events.len() == 0 {
        state
    } else {
        spec_next_state(spec_run(state, events.drop_last()), events.last())
    }
}

/// How often connecting is started anew while a sequence of events is handled.
pub open spec fn spec_connects_started(state: LinkState, events: Seq<LinkEvent>) -> nat
    decreases events.len(),
{
    if events.len() == 0 {
        0
    } else {
        let before = spec_run(state, events.drop_last());
        spec_connects_started(state, events.drop_last()) + if spec_starts_connect(
            before,
            events.last(),
        ) {
            1nat
        } else {
            0nat
        }
    }
}

/// The connection manager.
#[derive(Debug, Clone, Copy, PartialEq, Eq, Structural)]
pub struct ConnectionManager {
    state: LinkState,
    config: LinkConfig,
}

impl ConnectionManager {
    /// The state of the link.
    pub closed spec fn spec_state(&self) -> LinkState {
        self.state
    }

    /// The parameters of the link.
    pub closed spec fn spec_config(&self) -> LinkConfig {
        self.config
    }

    /// A manager that is about to connect for the first time: the pending
    /// action is to list the ports.
    pub fn new(config: LinkConfig) -> (manager: ConnectionManager)
        ensures
            manager.spec_state() == LinkState::Listing,
            manager.spec_config() == config,
    {
        ConnectionManager { state: LinkState::Listing, config }
    }

    /// The state of the link.
    pub fn state(&self) -> (state: LinkState)
        ensures
            state == self.spec_state(),
    {
        self.state
    }

    /// The parameters of the link.
    pub fn config(&self) -> (config: LinkConfig)
        ensures
            config == self.spec_config(),
    {
        self.config
    }

    /// Whether a port is open.
    pub fn is_connected(&self) -> (connected: bool)
        ensures
            connected == (self.spec_state() == LinkState::Connected),
    {
        match self.state {
            LinkState::Connected => true,
            _ => false,
        }
    }

    /// The action that the driver has to perform now.
    pub fn pending_action(&self) -> (action: LinkAction)
        ensures
            action == spec_pending_action(self.spec_state(), self.spec_config()),
    {
        match self.state {
            LinkState::Listing => LinkAction::ListPorts,
            LinkState::Opening => LinkAction::OpenPort {
                index: 0,
                baud_rate: self.config.baud_rate.bits_per_second(),
                timeout_ms: self.config.read_timeout_ms,
            },
            LinkState::Waiting => LinkAction::Wait { millis: self.config.retry_delay_ms },
            LinkState::Connected => LinkAction::Read,
        }
    }

    /// Handles the outcome of the pending action and returns the action to
    /// perform next.
    pub fn step(&mut self, event: LinkEvent) -> (action: LinkAction)
        ensures
            final(self).spec_state() == spec_next_state(old(self).spec_state(), event),
            final(self).spec_config() == old(self).spec_config(),
            action == spec_pending_action(final(self).spec_state(), final(self).spec_config()),
    {
        let next = match (self.state, event) {
            (LinkState::Listing, LinkEvent::PortsListed { count }) => if count > 0 {
                LinkState::Opening
            } else {
                LinkState::Waiting
            },
            (LinkState::Opening, LinkEvent::OpenSucceeded) => LinkState::Connected,
            (LinkState::Opening, LinkEvent::OpenFailed) => LinkState::Waiting,
            (LinkState::Waiting, LinkEvent::DelayElapsed) => LinkState::Listing,
            (LinkState::Connected, LinkEvent::ReadFailed { kind }) => match classify(kind) {
                ErrorClass::Disconnect => LinkState::Listing,
                ErrorClass::Transient => LinkState::Connected,
            },
            (state, _) => state,
        };
        self.state = next;
        self.pending_action()
    }
}

/// An open port is given up only for a disconnect: an event takes the link
/// out of `Connected` exactly when it is a read error of the disconnect
/// class, and connecting then starts at once, with listing the ports.
pub proof fn lemma_disconnect_starts_connect(state: LinkState, event: LinkEvent)
    ensures
        spec_starts_connect(state, event) <==> state == LinkState::Connected && spec_next_state(
            state,
            event,
        ) != LinkState::Connected,
        spec_starts_connect(state, event) ==> spec_next_state(state, event) == LinkState::Listing,
{
}

/// Connecting ends only with a successful open: from a state without an open
/// port, an event leads to `Connected` exactly when the port was being opened
/// and the open succeeded.
pub proof fn lemma_connected_only_by_open(state: LinkState, event: LinkEvent)
    requires
        state != LinkState::Connected,
    ensures
        spec_next_state(state, event) == LinkState::Connected <==> state == LinkState::Opening
            && event == LinkEvent::OpenSucceeded,
{
}

/// Reconnection: when a connected link reports a disconnect, a port is found
/// and the open succeeds, the link is connected again, connecting was started
/// exactly once, and the actions asked of the driver were to list the ports,
/// to open the first one, and to read.
pub proof fn lemma_reconnects_once(config: LinkConfig, kind: ReadErrorKind, count: usize)
    requires
        spec_classify(kind) == ErrorClass::Disconnect,
        count > 0,
    ensures
        ({
            let events = seq![
                LinkEvent::ReadFailed { kind },
                LinkEvent::PortsListed { count },
                LinkEvent::OpenSucceeded,
            ];
            let start = LinkState::Connected;
            &&& spec_run(start, events.take(1)) == LinkState::Listing
            &&& spec_run(start, events.take(2)) == LinkState::Opening
            &&& spec_run(start, events) == LinkState::Connected
            &&& spec_connects_started(start, events) == 1
            &&& spec_pending_action(spec_run(start, events.take(1)), config)
                == LinkAction::ListPorts
            &&& spec_pending_action(spec_run(start, events.take(2)), config)
                == (LinkAction::OpenPort {
                index: 0,
                baud_rate: config.baud_rate.spec_bits_per_second(),
                timeout_ms: config.read_timeout_ms,
            })
            &&& spec_pending_action(spec_run(start, events), config) == LinkAction::Read
        }),
{
    let events = seq![
        LinkEvent::ReadFailed { kind },
        LinkEvent::PortsListed { count },
        LinkEvent::OpenSucceeded,
    ];
    let start = LinkState::Connected;
    let e0 = events.take(0);
    let e1 = events.take(1);
    let e2 = events.take(2);
    assert(e1.drop_last() =~= e0);
    assert(e2.drop_last() =~= e1);
    assert(events.drop_last() =~= e2);
    assert(spec_run(start, e0) == start);
    assert(spec_run(start, e1) == LinkState::Listing);
    assert(spec_run(start, e2) == LinkState::Opening);
    assert(spec_run(start, events) == LinkState::Connected);
    assert(spec_connects_started(start, e0) == 0);
    assert(spec_connects_started(start, e1) == 1);
    assert(spec_connects_started(start, e2) == 1);
}

} // verus!
