use yowu_selkirk::bt::device::{uuid_from_u16, BtInfo, HeadsetType};
use yowu_selkirk::bt::frame::{command, BtCommands, CmdData};
use yowu_selkirk::bt::link::{
    Action, BtToGui, ConnectionState, Event, Fault, Link, Phase, ADAPTER_BACKOFF_MS,
    CONNECT_BACKOFF_MS, SCAN_DWELL_MS, SETTLE_MS,
};

fn advertised(name: Option<&str>) -> Event {
    Event::Advertised { local_name: name.map(String::from), address: [0xAA, 1, 2, 3, 4, 5] }
}

fn headset() -> Option<BtInfo> {
    Some(BtInfo {
        name: String::from("YOWU-SELKIRK-4"),
        is_connected: false,
        address: [0xAA, 1, 2, 3, 4, 5],
    })
}

fn at(phase: Phase) -> Link {
    let found = match phase {
        Phase::PollingAdapters
        | Phase::AdapterBackoff
        | Phase::AnnouncingAdapter { .. }
        | Phase::StartingScan { .. }
        | Phase::Dwelling { .. }
        | Phase::Listing { .. }
        | Phase::Reading { .. } => None,
        _ => headset(),
    };
    Link { phase, target: found }
}

/// Drives a fresh machine up to the point where it waits for commands.
fn ready_link() -> Link {
    let (mut link, _) = Link::new();
    let events = vec![
        Event::Adapters(1),
        Event::Delivered,
        Event::ScanStarted,
        Event::Elapsed,
        Event::Peripherals(1),
        advertised(Some("YOWU-SELKIRK-4")),
        Event::Delivered,
        Event::LinkState(true),
        Event::Delivered,
        Event::ServicesDiscovered,
        Event::Elapsed,
        Event::Characteristics(vec![uuid_from_u16(0x2A00), uuid_from_u16(0x2A06)]),
        Event::Delivered,
    ];
    for event in events {
        link.step(event);
    }
    link
}

#[test]
fn machine_starts_by_listing_adapters() {
    let (link, action) = Link::new();
    assert_eq!(action, Action::ListAdapters);
    assert_eq!(link.phase, Phase::PollingAdapters);
    assert_eq!(link.target, None);
    assert_eq!(link.state(), ConnectionState::SearchingAdapter);
    assert!(!link.is_finished());
}

#[test]
fn delays_are_the_documented_ones() {
    assert_eq!(ADAPTER_BACKOFF_MS, 750);
    assert_eq!(SCAN_DWELL_MS, 850);
    assert_eq!(CONNECT_BACKOFF_MS, 500);
    assert_eq!(SETTLE_MS, 120);
}

#[test]
fn link_comes_up_step_by_step() {
    let (mut link, first) = Link::new();
    assert_eq!(first, Action::ListAdapters);

    assert_eq!(link.step(Event::Adapters(1)), Action::Notify(BtToGui::AdapterConnected));
    assert_eq!(link.state(), ConnectionState::AdapterFound);
    assert_eq!(link.step(Event::Delivered), Action::StartScan { adapter: 0 });
    assert_eq!(link.state(), ConnectionState::SearchingDevice);
    assert_eq!(link.step(Event::ScanStarted), Action::Wait(850));
    assert_eq!(link.step(Event::Elapsed), Action::ListPeripherals { adapter: 0 });
    assert_eq!(
        link.step(Event::Peripherals(2)),
        Action::ReadProperties { adapter: 0, peripheral: 0 }
    );
    assert_eq!(
        link.step(advertised(Some("Keyboard"))),
        Action::ReadProperties { adapter: 0, peripheral: 1 }
    );
    assert_eq!(
        link.step(advertised(Some("YOWU-SELKIRK-4"))),
        Action::Adopt { adapter: 0, peripheral: 1, kind: HeadsetType::YowuSelkirk4 }
    );
    assert_eq!(link.state(), ConnectionState::DeviceFound);
    assert_eq!(link.target, headset());
    assert_eq!(link.step(Event::Delivered), Action::CheckLink);
    assert_eq!(link.state(), ConnectionState::Connecting);
    assert_eq!(link.step(Event::LinkState(false)), Action::Connect);
    assert_eq!(link.step(Event::ConnectReturned), Action::Wait(500));
    assert_eq!(link.step(Event::Elapsed), Action::CheckLink);
    assert_eq!(link.step(Event::LinkState(true)), Action::Notify(BtToGui::Connected));
    assert_eq!(link.state(), ConnectionState::Connected);
    assert_eq!(link.step(Event::Delivered), Action::DiscoverServices);
    assert_eq!(link.state(), ConnectionState::DiscoveringServices);
    assert_eq!(link.step(Event::ServicesDiscovered), Action::Wait(120));
    assert_eq!(link.step(Event::Elapsed), Action::ListCharacteristics);
    assert_eq!(
        link.step(Event::Characteristics(vec![uuid_from_u16(0x2A00), uuid_from_u16(0x2A06)])),
        Action::Notify(BtToGui::Ready)
    );
    assert_eq!(link.state(), ConnectionState::Ready);
    assert_eq!(link.step(Event::Delivered), Action::NextCommand);
    assert_eq!(link.phase, Phase::Idle { characteristic: 1 });
    assert!(link.target.as_ref().unwrap().is_connected);
    assert!(!link.is_finished());
}

#[test]
fn adapter_that_never_appears_keeps_the_machine_searching() {
    let (mut link, _) = Link::new();
    for _ in 0..500 {
        assert_eq!(link.step(Event::Adapters(0)), Action::Wait(750));
        assert_eq!(link.state(), ConnectionState::SearchingAdapter);
        assert!(!link.is_finished());
        assert_eq!(link.step(Event::Elapsed), Action::ListAdapters);
        assert_eq!(link.state(), ConnectionState::SearchingAdapter);
        assert!(!link.is_finished());
    }
}

#[test]
fn non_matching_peripheral_keeps_the_scan_going() {
    let (mut link, _) = Link::new();
    link.step(Event::Adapters(1));
    link.step(Event::Delivered);
    for _ in 0..50 {
        assert_eq!(link.step(Event::ScanStarted), Action::Wait(850));
        assert_eq!(link.step(Event::Elapsed), Action::ListPeripherals { adapter: 0 });
        assert_eq!(
            link.step(Event::Peripherals(1)),
            Action::ReadProperties { adapter: 0, peripheral: 0 }
        );
        let action = link.step(advertised(Some("yowu-selkirk-4")));
        assert_eq!(action, Action::StartScan { adapter: 0 });
        assert_eq!(link.state(), ConnectionState::SearchingDevice);
        assert_eq!(link.target, None);
    }
}

#[test]
fn peripheral_without_a_name_is_passed_over() {
    let mut link = at(Phase::Reading { adapters: 1, adapter: 0, peripherals: 2, peripheral: 0 });
    assert_eq!(link.step(advertised(None)), Action::ReadProperties { adapter: 0, peripheral: 1 });
    assert_eq!(link.step(advertised(Some("YOWU-SELKIRK-4X"))), Action::StartScan { adapter: 0 });
    assert_eq!(link.target, None);
}

#[test]
fn empty_scan_moves_to_the_next_adapter_and_round_again() {
    let mut link = at(Phase::Listing { adapters: 3, adapter: 0 });
    assert_eq!(link.step(Event::Peripherals(0)), Action::StartScan { adapter: 1 });
    link.step(Event::ScanStarted);
    link.step(Event::Elapsed);
    assert_eq!(link.step(Event::Peripherals(0)), Action::StartScan { adapter: 2 });
    link.step(Event::ScanStarted);
    link.step(Event::Elapsed);
    assert_eq!(link.step(Event::Peripherals(0)), Action::StartScan { adapter: 0 });
    assert_eq!(link.phase, Phase::StartingScan { adapters: 3, adapter: 0 });
}

#[test]
fn first_match_wins_and_later_peripherals_are_not_read() {
    let mut link = at(Phase::Reading { adapters: 2, adapter: 1, peripherals: 5, peripheral: 2 });
    assert_eq!(
        link.step(advertised(Some("YOWU-SELKIRK-4"))),
        Action::Adopt { adapter: 1, peripheral: 2, kind: HeadsetType::YowuSelkirk4 }
    );
    assert_eq!(link.phase, Phase::AnnouncingDevice);
    assert_eq!(link.step(Event::Delivered), Action::CheckLink);
}

#[test]
fn failed_connection_attempt_is_tried_again() {
    let mut link = at(Phase::CheckingLink);
    for _ in 0..20 {
        assert_eq!(link.step(Event::LinkState(false)), Action::Connect);
        assert_eq!(link.step(Event::Failed), Action::Wait(500));
        assert_eq!(link.state(), ConnectionState::Connecting);
        assert_eq!(link.step(Event::Elapsed), Action::CheckLink);
        assert!(!link.is_finished());
    }
    assert_eq!(link.step(Event::LinkState(true)), Action::Notify(BtToGui::Connected));
}

#[test]
fn headset_already_connected_is_not_connected_again() {
    let mut link = at(Phase::CheckingLink);
    assert_eq!(link.step(Event::LinkState(true)), Action::Notify(BtToGui::Connected));
    assert_eq!(link.phase, Phase::AnnouncingConnected);
}

#[test]
fn missing_characteristic_is_fatal() {
    let mut link = at(Phase::Resolving);
    let action = link.step(Event::Characteristics(vec![
        uuid_from_u16(0x2A00),
        uuid_from_u16(0x2A05),
        0x2A06,
    ]));
    assert_eq!(action, Action::Abort(Fault::CharacteristicMissing));
    assert!(link.is_finished());
    assert_eq!(
        link.phase,
        Phase::Stopped {
            fault: Fault::CharacteristicMissing,
            at: ConnectionState::DiscoveringServices
        }
    );
    assert_eq!(link.state(), ConnectionState::DiscoveringServices);
    // Nothing is tried again, whatever is reported.
    assert_eq!(link.step(Event::Elapsed), Action::Abort(Fault::CharacteristicMissing));
    assert_eq!(
        link.step(Event::Characteristics(vec![uuid_from_u16(0x2A06)])),
        Action::Abort(Fault::CharacteristicMissing)
    );
    assert!(link.is_finished());
}

#[test]
fn headset_without_characteristics_is_fatal() {
    let mut link = at(Phase::Resolving);
    assert_eq!(
        link.step(Event::Characteristics(vec![])),
        Action::Abort(Fault::CharacteristicMissing)
    );
}

#[test]
fn command_is_written_as_its_frame() {
    let mut link = ready_link();
    let data = CmdData { mode: 3, rgb: [0, 0, 0], bpm: 0, duration: 0 };
    assert_eq!(link.step(Event::Command(Some(BtCommands::SetMode(data)))), Action::CheckLink);
    let action = link.step(Event::LinkState(true));
    assert_eq!(action, Action::Write { characteristic: 1, frame: command(data) });
    assert_eq!(
        action,
        Action::Write {
            characteristic: 1,
            frame: [0xFC, 0x04, 0x01, 0x06, 0x03, 0, 0, 0, 0, 0, 0xF6]
        }
    );
    assert_eq!(link.phase, Phase::Writing { characteristic: 1 });
    assert_eq!(link.step(Event::Written), Action::NextCommand);
    assert_eq!(link.phase, Phase::Idle { characteristic: 1 });
}

#[test]
fn command_is_dropped_while_the_headset_is_not_live() {
    let mut link = ready_link();
    let data = CmdData { mode: 1, rgb: [9, 9, 9], bpm: 0, duration: 0 };
    assert_eq!(link.step(Event::Command(Some(BtCommands::SetMode(data)))), Action::CheckLink);
    assert_eq!(link.step(Event::LinkState(false)), Action::NextCommand);
    assert_eq!(link.phase, Phase::Idle { characteristic: 1 });
    assert!(!link.is_finished());
    assert!(!link.target.as_ref().unwrap().is_connected);
    // The next command is taken as usual.
    assert_eq!(link.step(Event::Command(Some(BtCommands::SetMode(data)))), Action::CheckLink);
    assert_eq!(
        link.step(Event::LinkState(true)),
        Action::Write { characteristic: 1, frame: command(data) }
    );
}

#[test]
fn commands_are_written_one_at_a_time() {
    let mut link = ready_link();
    let data = CmdData { mode: 2, rgb: [0, 0, 0], bpm: 0, duration: 0 };
    link.step(Event::Command(Some(BtCommands::SetMode(data))));
    link.step(Event::LinkState(true));
    // A second command reported while the write is out was never asked for.
    let action = link.step(Event::Command(Some(BtCommands::SetMode(data))));
    assert_eq!(action, Action::Abort(Fault::Protocol));
    assert!(link.is_finished());
}

#[test]
fn closed_queue_ends_the_machine_cleanly() {
    let mut link = ready_link();
    assert_eq!(link.step(Event::Command(None)), Action::Stop);
    assert_eq!(link.phase, Phase::Closed);
    assert!(link.is_finished());
    assert_eq!(link.state(), ConnectionState::Ready);
    assert_eq!(link.step(Event::Written), Action::Stop);
    assert_eq!(link.step(Event::Failed), Action::Stop);
}

#[test]
fn errors_end_the_machine_with_the_fault_of_the_phase() {
    let cases = vec![
        (Phase::PollingAdapters, Fault::Radio),
        (Phase::AdapterBackoff, Fault::Protocol),
        (Phase::AnnouncingAdapter { adapters: 1 }, Fault::BridgeClosed),
        (Phase::StartingScan { adapters: 1, adapter: 0 }, Fault::ScanRefused),
        (Phase::Dwelling { adapters: 1, adapter: 0 }, Fault::Protocol),
        (Phase::Listing { adapters: 1, adapter: 0 }, Fault::Radio),
        (
            Phase::Reading { adapters: 1, adapter: 0, peripherals: 1, peripheral: 0 },
            Fault::Radio,
        ),
        (Phase::AnnouncingDevice, Fault::BridgeClosed),
        (Phase::CheckingLink, Fault::Radio),
        (Phase::ConnectBackoff, Fault::Protocol),
        (Phase::AnnouncingConnected, Fault::BridgeClosed),
        (Phase::Discovering, Fault::Radio),
        (Phase::Settling, Fault::Protocol),
        (Phase::Resolving, Fault::Radio),
        (Phase::AnnouncingReady { characteristic: 0 }, Fault::BridgeClosed),
        (Phase::Idle { characteristic: 0 }, Fault::Protocol),
        (
            Phase::Probing {
                characteristic: 0,
                data: CmdData { mode: 0, rgb: [0, 0, 0], bpm: 0, duration: 0 },
            },
            Fault::Radio,
        ),
        (Phase::Writing { characteristic: 0 }, Fault::Radio),
    ];
    for (phase, fault) in cases {
        let mut link = at(phase);
        let state = link.state();
        assert_eq!(link.step(Event::Failed), Action::Abort(fault));
        assert_eq!(link.phase, Phase::Stopped { fault, at: state });
        assert_eq!(link.state(), state);
        assert!(link.is_finished());
    }
}

#[test]
fn outcome_that_was_not_asked_for_ends_the_machine() {
    let (mut link, _) = Link::new();
    assert_eq!(link.step(Event::Written), Action::Abort(Fault::Protocol));
    assert_eq!(
        link.phase,
        Phase::Stopped { fault: Fault::Protocol, at: ConnectionState::SearchingAdapter }
    );
    let mut link = at(Phase::Idle { characteristic: 0 });
    assert_eq!(link.step(Event::Elapsed), Action::Abort(Fault::Protocol));
}

#[test]
fn notifications_go_out_once_each_and_in_order() {
    let (mut link, _) = Link::new();
    let events = vec![
        Event::Adapters(0),
        Event::Elapsed,
        Event::Adapters(2),
        Event::Delivered,
        Event::ScanStarted,
        Event::Elapsed,
        Event::Peripherals(0),
        Event::ScanStarted,
        Event::Elapsed,
        Event::Peripherals(1),
        advertised(Some("YOWU-SELKIRK-4")),
        Event::Delivered,
        Event::LinkState(false),
        Event::Failed,
        Event::Elapsed,
        Event::LinkState(true),
        Event::Delivered,
        Event::ServicesDiscovered,
        Event::Elapsed,
        Event::Characteristics(vec![uuid_from_u16(0x2A06)]),
        Event::Delivered,
        Event::Command(Some(BtCommands::SetMode(CmdData::default()))),
        Event::LinkState(true),
        Event::Written,
    ];
    let mut notices = Vec::new();
    for event in events {
        match link.step(event) {
            Action::Notify(notice) => notices.push(notice),
            Action::Adopt { kind, .. } => notices.push(BtToGui::Found(kind)),
            _ => {}
        }
    }
    assert_eq!(
        notices,
        vec![
            BtToGui::AdapterConnected,
            BtToGui::Found(HeadsetType::YowuSelkirk4),
            BtToGui::Connected,
            BtToGui::Ready
        ]
    );
}

#[test]
fn faults_are_described_in_words() {
    assert_eq!(Fault::CharacteristicMissing.describe(), "Unable to find characterics");
    assert_eq!(Fault::ScanRefused.describe(), "Can't scan BLE adapter for connected devices...");
    assert_eq!(Fault::Radio.describe(), "The radio stack reported an error");
    assert_eq!(Fault::BridgeClosed.describe(), "Nobody is left to take notifications");
    assert_eq!(Fault::Protocol.describe(), "An outcome was reported that was not asked for");
}

#[test]
fn presentation_starts_at_init() {
    assert_eq!(BtToGui::default(), BtToGui::Init);
}

#[test]
fn machine_stays_well_formed_as_it_is_driven() {
    let (mut link, _) = Link::new();
    assert!(link.is_well_formed());
    let events = vec![
        Event::Adapters(2),
        Event::Delivered,
        Event::ScanStarted,
        Event::Elapsed,
        Event::Peripherals(2),
        advertised(None),
        advertised(Some("YOWU-SELKIRK-4")),
        Event::Delivered,
        Event::LinkState(true),
        Event::Delivered,
        Event::ServicesDiscovered,
        Event::Elapsed,
        Event::Characteristics(vec![uuid_from_u16(0x2A06)]),
        Event::Delivered,
        Event::Command(None),
    ];
    for event in events {
        link.step(event);
        assert!(link.is_well_formed());
    }
    assert!(link.is_finished());
}

#[test]
fn machine_put_together_wrongly_is_told_apart() {
    let no_headset = Link { phase: Phase::Idle { characteristic: 0 }, target: None };
    assert!(!no_headset.is_well_formed());
    let beyond = Link { phase: Phase::Listing { adapters: 1, adapter: 1 }, target: None };
    assert!(!beyond.is_well_formed());
    let early = Link { phase: Phase::PollingAdapters, target: headset() };
    assert!(!early.is_well_formed());
    assert!(at(Phase::Writing { characteristic: 3 }).is_well_formed());
}
