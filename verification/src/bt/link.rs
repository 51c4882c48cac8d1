//! The link to the headset as a state machine.
//!
//! The machine never touches the radio. Each step takes the outcome of the
//! action it asked for last and answers with the next action; the program
//! around it performs that action, one at a time, and reports back. So the
//! order of everything that happens on the link is decided here.

use crate::bt::device::{
    display_name, find_characteristic, first_index_of, full_uuid, identify, recognised,
    shown_name, uuid_from_u16, BtInfo, HeadsetType, COMMAND_CHARACTERISTIC, TARGET_NAME,
    UNKNOWN_NAME,
};
use crate::bt::frame::{command, encoded, BtCommands, CmdData};
use vstd::prelude::*;

verus! {

/// Pause before asking for adapters again, in milliseconds.
pub const ADAPTER_BACKOFF_MS: u64 = 750;

/// Time a scan is left running before its results are read, in milliseconds.
pub const SCAN_DWELL_MS: u64 = 850;

/// Pause after a connection attempt, in milliseconds.
pub const CONNECT_BACKOFF_MS: u64 = 500;

/// Time given to the characteristic table to fill, in milliseconds.
pub const SETTLE_MS: u64 = 120;

/// What the presentation side is told of the link.
#[derive(Clone, Copy, Debug, PartialEq, Eq)]
pub enum BtToGui {
    Init,
    AdapterConnected,
    Found(HeadsetType),
    Connected,
    Ready,
}

/// How far the link has come.
#[derive(Clone, Copy, Debug, PartialEq, Eq)]
pub enum ConnectionState {
    SearchingAdapter,
    AdapterFound,
    SearchingDevice,
    DeviceFound,
    Connecting,
    Connected,
    DiscoveringServices,
    Ready,
}

/// Why the machine gave up.
#[derive(Clone, Copy, Debug, PartialEq, Eq)]
pub enum Fault {
    /// The headset has no command characteristic.
    CharacteristicMissing,
    /// An adapter refused to scan.
    ScanRefused,
    /// The radio stack reported an error that no retry covers.
    Radio,
    /// A notification found nobody to take it.
    BridgeClosed,
    /// The outcome reported is not one of the action that was asked for.
    Protocol,
}

/// What the machine is waiting for.
#[derive(Clone, Copy, Debug, PartialEq, Eq)]
pub enum Phase {
    /// For the list of adapters.
    PollingAdapters,
    /// For the pause after an empty list.
    AdapterBackoff,
    /// For the notification that adapters are there.
    AnnouncingAdapter { adapters: usize },
    /// For the scan on one adapter to start.
    StartingScan { adapters: usize, adapter: usize },
    /// For the scan to have run its time.
    Dwelling { adapters: usize, adapter: usize },
    /// For the peripherals that the scan has seen.
    Listing { adapters: usize, adapter: usize },
    /// For what one peripheral advertises.
    Reading { adapters: usize, adapter: usize, peripherals: usize, peripheral: usize },
    /// For the notification that the headset was found.
    AnnouncingDevice,
    /// For the answer whether the headset is connected.
    CheckingLink,
    /// For a connection attempt to return.
    Connecting,
    /// For the pause after a connection attempt.
    ConnectBackoff,
    /// For the notification that the headset is connected.
    AnnouncingConnected,
    /// For service discovery to finish.
    Discovering,
    /// For the characteristic table to settle.
    Settling,
    /// For the characteristics of the headset.
    Resolving,
    /// For the notification that commands can be taken.
    AnnouncingReady { characteristic: usize },
    /// For the next command.
    Idle { characteristic: usize },
    /// For the answer whether the headset is still connected, with a command
    /// in hand.
    Probing { characteristic: usize, data: CmdData },
    /// For a write to return.
    Writing { characteristic: usize },
    /// For nothing: the command queue was closed.
    Closed,
    /// For nothing: the machine gave up in state `at`.
    Stopped { fault: Fault, at: ConnectionState },
}

/// The outcome of an action.
#[derive(Debug, PartialEq, Eq)]
pub enum Event {
    /// The adapters were listed; there are this many.
    Adapters(usize),
    /// The pause is over.
    Elapsed,
    /// The notification was taken.
    Delivered,
    /// The scan is running.
    ScanStarted,
    /// The peripherals were listed; there are this many.
    Peripherals(usize),
    /// One peripheral's advertised name, if it has one, and its address.
    Advertised { local_name: Option<String>, address: [u8; 6] },
    /// Whether the headset is connected.
    LinkState(bool),
    /// The connection attempt returned without an error.
    ConnectReturned,
    /// Service discovery is done.
    ServicesDiscovered,
    /// The UUIDs of the headset's characteristics, in the order listed.
    Characteristics(Vec<u128>),
    /// The next command, or none if the queue was closed.
    Command(Option<BtCommands>),
    /// The frame was handed to the radio.
    Written,
    /// The action ended in an error.
    Failed,
}

/// What the program around the machine is to do next.
#[derive(Debug, PartialEq, Eq)]
pub enum Action {
    /// List the adapters; answer with `Adapters`.
    ListAdapters,
    /// Pause for so many milliseconds; answer with `Elapsed`.
    Wait(u64),
    /// Tell the presentation side; answer with `Delivered`.
    Notify(BtToGui),
    /// Start a scan on this adapter; answer with `ScanStarted`.
    StartScan { adapter: usize },
    /// List the peripherals this adapter has seen; answer with `Peripherals`.
    ListPeripherals { adapter: usize },
    /// Read what this peripheral advertises; answer with `Advertised`.
    ReadProperties { adapter: usize, peripheral: usize },
    /// Take this peripheral as the headset and tell the presentation side
    /// that one of this kind was found; answer with `Delivered`.
    Adopt { adapter: usize, peripheral: usize, kind: HeadsetType },
    /// Ask whether the headset is connected; answer with `LinkState`.
    CheckLink,
    /// Try to connect; answer with `ConnectReturned`.
    Connect,
    /// Discover the headset's services; answer with `ServicesDiscovered`.
    DiscoverServices,
    /// List the headset's characteristics; answer with `Characteristics`.
    ListCharacteristics,
    /// Take the next command from the queue; answer with `Command`.
    NextCommand,
    /// Write this frame, without response, to the characteristic at this
    /// position of the list; answer with `Written`.
    Write { characteristic: usize, frame: [u8; 11] },
    /// End: the command queue was closed.
    Stop,
    /// End with an error.
    Abort(Fault),
}

/// The state machine: what it waits for, and the headset once it is found.
#[derive(Debug, PartialEq, Eq)]
pub struct Link {
    pub phase: Phase,
    pub target: Option<BtInfo>,
}

/// The state that a phase belongs to.
pub open spec fn state_of(phase: Phase) -> ConnectionState {
    match phase {
        Phase::PollingAdapters | Phase::AdapterBackoff => ConnectionState::SearchingAdapter,
        Phase::AnnouncingAdapter { .. } => ConnectionState::AdapterFound,
        Phase::StartingScan { .. }
        | Phase::Dwelling { .. }
        | Phase::Listing { .. }
        | Phase::Reading { .. } => ConnectionState::SearchingDevice,
        Phase::AnnouncingDevice => ConnectionState::DeviceFound,
        Phase::CheckingLink | Phase::Connecting | Phase::ConnectBackoff => {
            ConnectionState::Connecting
        },
        Phase::AnnouncingConnected => ConnectionState::Connected,
        Phase::Discovering | Phase::Settling | Phase::Resolving => {
            ConnectionState::DiscoveringServices
        },
        Phase::AnnouncingReady { .. }
        | Phase::Idle { .. }
        | Phase::Probing { .. }
        | Phase::Writing { .. }
        | Phase::Closed => ConnectionState::Ready,
        Phase::Stopped { at, .. } => at,
    }
}

/// Position of a state in the order in which the link passes through them.
pub open spec fn rank(state: ConnectionState) -> nat {
    match state {
        ConnectionState::SearchingAdapter => 0,
        ConnectionState::AdapterFound => 1,
        ConnectionState::SearchingDevice => 2,
        ConnectionState::DeviceFound => 3,
        ConnectionState::Connecting => 4,
        ConnectionState::Connected => 5,
        ConnectionState::DiscoveringServices => 6,
        ConnectionState::Ready => 7,
    }
}

/// Position of a notification in the order in which they are sent.
pub open spec fn notice_rank(notice: BtToGui) -> nat {
    match notice {
        BtToGui::Init => 0,
        BtToGui::AdapterConnected => 1,
        BtToGui::Found(_) => 2,
        BtToGui::Connected => 3,
        BtToGui::Ready => 4,
    }
}

/// What an action tells the presentation side, if anything.
pub open spec fn notice_of(action: Action) -> Option<BtToGui> {
    match action {
        Action::Notify(notice) => Some(notice),
        Action::Adopt { kind, .. } => Some(BtToGui::Found(kind)),
        _ => None,
    }
}

/// Whether the machine has ended.
pub open spec fn ended(phase: Phase) -> bool {
    phase is Closed || phase is Stopped
}

/// The adapter to scan after `adapter`: the next one, or the first again
/// when all have had their turn.
pub open spec fn following(adapters: usize, adapter: usize) -> usize {
    if adapter + 1 < adapters {
        (adapter + 1) as usize
    } else {
        0
    }
}

/// The fault that an error means in a phase. An error of a connection
/// attempt is no fault: see `next`.
pub open spec fn fault_of_failure(phase: Phase) -> Fault {
    match phase {
        Phase::AnnouncingAdapter { .. }
        | Phase::AnnouncingDevice
        | Phase::AnnouncingConnected
        | Phase::AnnouncingReady { .. } => Fault::BridgeClosed,
        Phase::StartingScan { .. } => Fault::ScanRefused,
        Phase::PollingAdapters
        | Phase::Listing { .. }
        | Phase::Reading { .. }
        | Phase::CheckingLink
        | Phase::Discovering
        | Phase::Resolving
        | Phase::Probing { .. }
        | Phase::Writing { .. } => Fault::Radio,
        _ => Fault::Protocol,
    }
}

impl Link {
    /// The headset is known from the moment it is found, and not before; the
    /// positions that the machine holds lie within the lists they index.
    pub open spec fn wf(self) -> bool {
        match self.phase {
            Phase::PollingAdapters | Phase::AdapterBackoff => self.target is None,
            Phase::AnnouncingAdapter { adapters } => adapters > 0 && self.target is None,
            Phase::StartingScan { adapters, adapter }
            | Phase::Dwelling { adapters, adapter }
            | Phase::Listing { adapters, adapter } => adapter < adapters && self.target is None,
            Phase::Reading { adapters, adapter, peripherals, peripheral } => {
                &&& adapter < adapters
                &&& peripheral < peripherals
                &&& self.target is None
            },
            Phase::Stopped { .. } => true,
            _ => self.target matches Some(info) && recognised(info.name@) is Some,
        }
    }

    /// The state of the link.
    pub open spec fn spec_state(self) -> ConnectionState {
        state_of(self.phase)
    }

    /// The machine in another phase.
    pub open spec fn moved_to(self, phase: Phase) -> Link {
        Link { phase, target: self.target }
    }

    /// The machine after it gave up, and the action that says so.
    pub open spec fn stopped(self, fault: Fault) -> (Link, Action) {
        (self.moved_to(Phase::Stopped { fault, at: state_of(self.phase) }), Action::Abort(fault))
    }

    /// The machine with the headset's liveness as last reported.
    pub open spec fn with_liveness(self, phase: Phase, live: bool) -> Link {
        Link {
            phase,
            target: match self.target {
                Some(info) => Some(
                    BtInfo { name: info.name, is_connected: live, address: info.address },
                ),
                None => None,
            },
        }
    }

    /// The scan moves on: to the next adapter, or to the first again.
    pub open spec fn rescan(self, adapters: usize, adapter: usize) -> (Link, Action) {
        let then = following(adapters, adapter);
        (
            self.moved_to(Phase::StartingScan { adapters, adapter: then }),
            Action::StartScan { adapter: then },
        )
    }
}

/// The machine at the start, and its first action.
pub open spec fn initial() -> (Link, Action) {
    (Link { phase: Phase::PollingAdapters, target: None }, Action::ListAdapters)
}

/// The transition function: the machine after `event`, and the action it
/// asks for.
pub open spec fn next(link: Link, event: Event) -> (Link, Action) {
    match (link.phase, event) {
        (Phase::Closed, _) => (link, Action::Stop),
        (Phase::Stopped { fault, .. }, _) => (link, Action::Abort(fault)),
        (Phase::Connecting, Event::Failed) | (Phase::Connecting, Event::ConnectReturned) => (
            link.moved_to(Phase::ConnectBackoff),
            Action::Wait(CONNECT_BACKOFF_MS),
        ),
        (_, Event::Failed) => link.stopped(fault_of_failure(link.phase)),
        (Phase::PollingAdapters, Event::Adapters(adapters)) => if adapters == 0 {
            (link.moved_to(Phase::AdapterBackoff), Action::Wait(ADAPTER_BACKOFF_MS))
        } else {
            (
                link.moved_to(Phase::AnnouncingAdapter { adapters }),
                Action::Notify(BtToGui::AdapterConnected),
            )
        },
        (Phase::AdapterBackoff, Event::Elapsed) => (
            link.moved_to(Phase::PollingAdapters),
            Action::ListAdapters,
        ),
        (Phase::AnnouncingAdapter { adapters }, Event::Delivered) => (
            link.moved_to(Phase::StartingScan { adapters, adapter: 0 }),
            Action::StartScan { adapter: 0 },
        ),
        (Phase::StartingScan { adapters, adapter }, Event::ScanStarted) => (
            link.moved_to(Phase::Dwelling { adapters, adapter }),
            Action::Wait(SCAN_DWELL_MS),
        ),
        (Phase::Dwelling { adapters, adapter }, Event::Elapsed) => (
            link.moved_to(Phase::Listing { adapters, adapter }),
            Action::ListPeripherals { adapter },
        ),
        (Phase::Listing { adapters, adapter }, Event::Peripherals(peripherals)) => if peripherals
            == 0 {
            link.rescan(adapters, adapter)
        } else {
            (
                link.moved_to(Phase::Reading { adapters, adapter, peripherals, peripheral: 0 }),
                Action::ReadProperties { adapter, peripheral: 0 },
            )
        },
        (
            Phase::Reading { adapters, adapter, peripherals, peripheral },
            Event::Advertised { local_name, address },
        ) => match recognised(shown_name(local_name)) {
            Some(kind) => (
                Link {
                    phase: Phase::AnnouncingDevice,
                    target: Some(
                        BtInfo { name: local_name->Some_0, is_connected: false, address },
                    ),
                },
                Action::Adopt { adapter, peripheral, kind },
            ),
            None => if peripheral + 1 < peripherals {
                (
                    link.moved_to(
                        Phase::Reading {
                            adapters,
                            adapter,
                            peripherals,
                            peripheral: (peripheral + 1) as usize,
                        },
                    ),
                    Action::ReadProperties { adapter, peripheral: (peripheral + 1) as usize },
                )
            } else {
                link.rescan(adapters, adapter)
            },
        },
        (Phase::AnnouncingDevice, Event::Delivered) => (
            link.moved_to(Phase::CheckingLink),
            Action::CheckLink,
        ),
        (Phase::CheckingLink, Event::LinkState(live)) => if live {
            (
                link.with_liveness(Phase::AnnouncingConnected, true),
                Action::Notify(BtToGui::Connected),
            )
        } else {
            (link.with_liveness(Phase::Connecting, false), Action::Connect)
        },
        (Phase::ConnectBackoff, Event::Elapsed) => (
            link.moved_to(Phase::CheckingLink),
            Action::CheckLink,
        ),
        (Phase::AnnouncingConnected, Event::Delivered) => (
            link.moved_to(Phase::Discovering),
            Action::DiscoverServices,
        ),
        (Phase::Discovering, Event::ServicesDiscovered) => (
            link.moved_to(Phase::Settling),
            Action::Wait(SETTLE_MS),
        ),
        (Phase::Settling, Event::Elapsed) => (
            link.moved_to(Phase::Resolving),
            Action::ListCharacteristics,
        ),
        (Phase::Resolving, Event::Characteristics(uuids)) => match first_index_of(
            uuids@,
            full_uuid(COMMAND_CHARACTERISTIC),
        ) {
            Some(i) => (
                link.moved_to(Phase::AnnouncingReady { characteristic: i as usize }),
                Action::Notify(BtToGui::Ready),
            ),
            None => link.stopped(Fault::CharacteristicMissing),
        },
        (Phase::AnnouncingReady { characteristic }, Event::Delivered) => (
            link.moved_to(Phase::Idle { characteristic }),
            Action::NextCommand,
        ),
        (Phase::Idle { characteristic }, Event::Command(Some(BtCommands::SetMode(data)))) => (
            link.moved_to(Phase::Probing { characteristic, data }),
            Action::CheckLink,
        ),
        (Phase::Idle { .. }, Event::Command(None)) => (link.moved_to(Phase::Closed), Action::Stop),
        (Phase::Probing { characteristic, data }, Event::LinkState(live)) => if live {
            (
                link.with_liveness(Phase::Writing { characteristic }, true),
                Action::Write { characteristic, frame: encoded(data) },
            )
        } else {
            (link.with_liveness(Phase::Idle { characteristic }, false), Action::NextCommand)
        },
        (Phase::Writing { characteristic }, Event::Written) => (
            link.moved_to(Phase::Idle { characteristic }),
            Action::NextCommand,
        ),
        _ => link.stopped(Fault::Protocol),
    }
}

impl Default for BtToGui {
    /// What the presentation side shows before it is told anything.
    fn default() -> (notice: Self)
        ensures
            notice == BtToGui::Init,
    {
        BtToGui::Init
    }
}

impl Fault {
    /// The fault in words.
    pub open spec fn spec_describe(self) -> Seq<char> {
        match self {
            Fault::CharacteristicMissing => "Unable to find characterics"@,
            Fault::ScanRefused => "Can't scan BLE adapter for connected devices..."@,
            Fault::Radio => "The radio stack reported an error"@,
            Fault::BridgeClosed => "Nobody is left to take notifications"@,
            Fault::Protocol => "An outcome was reported that was not asked for"@,
        }
    }

    /// The fault in words, for the log.
    pub fn describe(&self) -> (text: String)
        ensures
            text@ == self.spec_describe(),
    {
        match self {
            Fault::CharacteristicMissing => "Unable to find characterics".to_string(),
            Fault::ScanRefused => "Can't scan BLE adapter for connected devices...".to_string(),
            Fault::Radio => "The radio stack reported an error".to_string(),
            Fault::BridgeClosed => "Nobody is left to take notifications".to_string(),
            Fault::Protocol => "An outcome was reported that was not asked for".to_string(),
        }
    }
}

/// The fault that an error means in a phase.
fn failure_fault(phase: Phase) -> (fault: Fault)
    ensures
        fault == fault_of_failure(phase),
{
    match phase {
        Phase::AnnouncingAdapter { .. }
        | Phase::AnnouncingDevice
        | Phase::AnnouncingConnected
        | Phase::AnnouncingReady { .. } => Fault::BridgeClosed,
        Phase::StartingScan { .. } => Fault::ScanRefused,
        Phase::PollingAdapters
        | Phase::Listing { .. }
        | Phase::Reading { .. }
        | Phase::CheckingLink
        | Phase::Discovering
        | Phase::Resolving
        | Phase::Probing { .. }
        | Phase::Writing { .. } => Fault::Radio,
        _ => Fault::Protocol,
    }
}

impl Link {
    /// A machine at the start, and its first action.
    pub fn new() -> (start: (Link, Action))
        ensures
            start == initial(),
            start.0.wf(),
    {
        (Link { phase: Phase::PollingAdapters, target: None }, Action::ListAdapters)
    }

    /// The state of the link.
    pub fn state(&self) -> (state: ConnectionState)
        ensures
            state == self.spec_state(),
    {
        match self.phase {
            Phase::PollingAdapters | Phase::AdapterBackoff => ConnectionState::SearchingAdapter,
            Phase::AnnouncingAdapter { .. } => ConnectionState::AdapterFound,
            Phase::StartingScan { .. }
            | Phase::Dwelling { .. }
            | Phase::Listing { .. }
            | Phase::Reading { .. } => ConnectionState::SearchingDevice,
            Phase::AnnouncingDevice => ConnectionState::DeviceFound,
            Phase::CheckingLink | Phase::Connecting | Phase::ConnectBackoff => {
                ConnectionState::Connecting
            },
            Phase::AnnouncingConnected => ConnectionState::Connected,
            Phase::Discovering | Phase::Settling | Phase::Resolving => {
                ConnectionState::DiscoveringServices
            },
            Phase::AnnouncingReady { .. }
            | Phase::Idle { .. }
            | Phase::Probing { .. }
            | Phase::Writing { .. }
            | Phase::Closed => ConnectionState::Ready,
            Phase::Stopped { at, .. } => at,
        }
    }

    /// Whether the machine has ended: no step will change it any more.
    pub fn is_finished(&self) -> (done: bool)
        ensures
            done == ended(self.phase),
    {
        match self.phase {
            Phase::Closed | Phase::Stopped { .. } => true,
            _ => false,
        }
    }

    /// Whether the machine is well formed. A machine made by `new` and moved
    /// by `step` alone always is; one put together by hand may not be.
    pub fn is_well_formed(&self) -> (ok: bool)
        ensures
            ok == self.wf(),
    {
        match self.phase {
            Phase::PollingAdapters | Phase::AdapterBackoff => self.target.is_none(),
            Phase::AnnouncingAdapter { adapters } => adapters > 0 && self.target.is_none(),
            Phase::StartingScan { adapters, adapter }
            | Phase::Dwelling { adapters, adapter }
            | Phase::Listing { adapters, adapter } => adapter < adapters && self.target.is_none(),
            Phase::Reading { adapters, adapter, peripherals, peripheral } => {
                adapter < adapters && peripheral < peripherals && self.target.is_none()
            },
            Phase::Stopped { .. } => true,
            _ => match &self.target {
                Some(info) => identify(info.name.as_str()).is_some(),
                None => false,
            },
        }
    }

    /// Gives up.
    fn stop(&mut self, fault: Fault) -> (action: Action)
        ensures
            (*final(self), action) == old(self).stopped(fault),
    {
        let at = self.state();
        self.phase = Phase::Stopped { fault, at };
        Action::Abort(fault)
    }

    /// Moves the scan on to the adapter after `adapter`.
    fn scan_following(&mut self, adapters: usize, adapter: usize) -> (action: Action)
        requires
            adapter < adapters,
        ensures
            (*final(self), action) == old(self).rescan(adapters, adapter),
    {
        let then: usize = if adapter + 1 < adapters {
            adapter + 1
        } else {
            0
        };
        self.phase = Phase::StartingScan { adapters, adapter: then };
        Action::StartScan { adapter: then }
    }

    /// Records the headset's liveness and moves to `phase`.
    fn note_liveness(&mut self, phase: Phase, live: bool)
        ensures
            *final(self) == old(self).with_liveness(phase, live),
    {
        self.phase = phase;
        match &mut self.target {
            Some(info) => {
                info.is_connected = live;
            },
            None => {},
        }
    }

    /// Takes the outcome of the action asked for last and answers with the
    /// next action.
    pub fn step(&mut self, event: Event) -> (action: Action)
        requires
            old(self).wf(),
        ensures
            (*final(self), action) == next(*old(self), event),
            final(self).wf(),
    {
        let phase = self.phase;
        match (phase, event) {
            (Phase::Closed, _) => Action::Stop,
            (Phase::Stopped { fault, .. }, _) => Action::Abort(fault),
            (Phase::Connecting, Event::Failed) | (Phase::Connecting, Event::ConnectReturned) => {
                self.phase = Phase::ConnectBackoff;
                Action::Wait(CONNECT_BACKOFF_MS)
            },
            (_, Event::Failed) => {
                let fault = failure_fault(phase);
                self.stop(fault)
            },
            (Phase::PollingAdapters, Event::Adapters(adapters)) => {
                if adapters == 0 {
                    self.phase = Phase::AdapterBackoff;
                    Action::Wait(ADAPTER_BACKOFF_MS)
                } else {
                    self.phase = Phase::AnnouncingAdapter { adapters };
                    Action::Notify(BtToGui::AdapterConnected)
                }
            },
            (Phase::AdapterBackoff, Event::Elapsed) => {
                self.phase = Phase::PollingAdapters;
                Action::ListAdapters
            },
            (Phase::AnnouncingAdapter { adapters }, Event::Delivered) => {
                self.phase = Phase::StartingScan { adapters, adapter: 0 };
                Action::StartScan { adapter: 0 }
            },
            (Phase::StartingScan { adapters, adapter }, Event::ScanStarted) => {
                self.phase = Phase::Dwelling { adapters, adapter };
                Action::Wait(SCAN_DWELL_MS)
            },
            (Phase::Dwelling { adapters, adapter }, Event::Elapsed) => {
                self.phase = Phase::Listing { adapters, adapter };
                Action::ListPeripherals { adapter }
            },
            (Phase::Listing { adapters, adapter }, Event::Peripherals(peripherals)) => {
                if peripherals == 0 {
                    self.scan_following(adapters, adapter)
                } else {
                    self.phase = Phase::Reading { adapters, adapter, peripherals, peripheral: 0 };
                    Action::ReadProperties { adapter, peripheral: 0 }
                }
            },
            (
                Phase::Reading { adapters, adapter, peripherals, peripheral },
                Event::Advertised { local_name, address },
            ) => {
                let name = display_name(local_name);
                match identify(name.as_str()) {
                    Some(kind) => {
                        proof {
                            reveal_strlit("YOWU-SELKIRK-4");
                            reveal_strlit("name unknown");
                            // The placeholder is not the target name, so a name was advertised.
                            assert(UNKNOWN_NAME@.len() != TARGET_NAME@.len());
                        }
                        self.phase = Phase::AnnouncingDevice;
                        self.target = Some(BtInfo { name, is_connected: false, address });
                        Action::Adopt { adapter, peripheral, kind }
                    },
                    None => {
                        if peripheral + 1 < peripherals {
                            self.phase = Phase::Reading {
                                adapters,
                                adapter,
                                peripherals,
                                peripheral: peripheral + 1,
                            };
                            Action::ReadProperties { adapter, peripheral: peripheral + 1 }
                        } else {
                            self.scan_following(adapters, adapter)
                        }
                    },
                }
            },
            (Phase::AnnouncingDevice, Event::Delivered) => {
                self.phase = Phase::CheckingLink;
                Action::CheckLink
            },
            (Phase::CheckingLink, Event::LinkState(live)) => {
                if live {
                    self.note_liveness(Phase::AnnouncingConnected, true);
                    Action::Notify(BtToGui::Connected)
                } else {
                    self.note_liveness(Phase::Connecting, false);
                    Action::Connect
                }
            },
            (Phase::ConnectBackoff, Event::Elapsed) => {
                self.phase = Phase::CheckingLink;
                Action::CheckLink
            },
            (Phase::AnnouncingConnected, Event::Delivered) => {
                self.phase = Phase::Discovering;
                Action::DiscoverServices
            },
            (Phase::Discovering, Event::ServicesDiscovered) => {
                self.phase = Phase::Settling;
                Action::Wait(SETTLE_MS)
            },
            (Phase::Settling, Event::Elapsed) => {
                self.phase = Phase::Resolving;
                Action::ListCharacteristics
            },
            (Phase::Resolving, Event::Characteristics(uuids)) => {
                match find_characteristic(&uuids, uuid_from_u16(COMMAND_CHARACTERISTIC)) {
                    Some(characteristic) => {
                        self.phase = Phase::AnnouncingReady { characteristic };
                        Action::Notify(BtToGui::Ready)
                    },
                    None => self.stop(Fault::CharacteristicMissing),
                }
            },
            (Phase::AnnouncingReady { characteristic }, Event::Delivered) => {
                self.phase = Phase::Idle { characteristic };
                Action::NextCommand
            },
            (Phase::Idle { characteristic }, Event::Command(Some(BtCommands::SetMode(data)))) => {
                self.phase = Phase::Probing { characteristic, data };
                Action::CheckLink
            },
            (Phase::Idle { .. }, Event::Command(None)) => {
                self.phase = Phase::Closed;
                Action::Stop
            },
            (Phase::Probing { characteristic, data }, Event::LinkState(live)) => {
                if live {
                    self.note_liveness(Phase::Writing { characteristic }, true);
                    Action::Write { characteristic, frame: command(data) }
                } else {
                    self.note_liveness(Phase::Idle { characteristic }, false);
                    Action::NextCommand
                }
            },
            (Phase::Writing { characteristic }, Event::Written) => {
                self.phase = Phase::Idle { characteristic };
                Action::NextCommand
            },
            _ => self.stop(Fault::Protocol),
        }
    }
}

} // verus!
