use airpodsd::bluetooth::Event;
use airpodsd::daemon::{Command, Daemon, Next, Operation, Outcome, Trigger};
use airpodsd::model::{Mode, PairedDevice};
use airpodsd::policy::Exception;
use airpodsd::storage::{Config, Keys};

const SECOND: u64 = 1_000_000_000;
const DEVICE: &str = "AA:BB:CC:DD:EE:FF";
const ADAPTER: &str = "00:11:22:33:44:55";
const WORN: u8 = 0x20 | 2;
const OUT: u8 = 0x20;

fn config(managed: bool, keyed: bool) -> Config {
    Config {
        schema: 1,
        adapter: ADAPTER.to_string(),
        address: DEVICE.to_string(),
        name: "Buds".to_string(),
        original_blocked: false,
        managed,
        keys: if keyed { Some(Keys { irk: [1; 16], enc: [2; 16] }) } else { None },
    }
}

fn frame(status: u8) -> Vec<u8> {
    let mut data = vec![0; 27];
    data[0] = 7;
    data[1] = 25;
    data[2] = 1;
    data[5] = status;
    data
}

fn seen(status: u8, at: u64, fresh: bool) -> Trigger {
    Trigger::Event(Event::Advertisement { data: frame(status), at, fresh })
}

fn ears(first: u8, second: u8) -> Trigger {
    Trigger::Received(Some(vec![4, 0, 4, 0, 6, 0, first, second]))
}

fn operation(next: Next) -> Operation {
    match next {
        Next::Perform(operation) => operation,
        Next::Wait { .. } => panic!("the daemon waits"),
        Next::Stop { .. } => panic!("the daemon has stopped"),
    }
}

fn reply(next: Next) -> Option<Result<(), String>> {
    match next {
        Next::Wait { reply } => reply,
        _ => panic!("the daemon does not wait"),
    }
}

/// Answers the publication that ends a turn.
fn published(daemon: &mut Daemon, now: u64, next: Next) -> Option<Result<(), String>> {
    assert!(matches!(operation(next), Operation::Publish));
    reply(daemon.resume(now, Outcome::Done))
}

fn device_of(operation: Operation) -> String {
    match operation {
        Operation::Block { device } => device,
        _ => panic!("nothing is blocked"),
    }
}

/// A daemon that was started with `config` and waits.
fn started(config: Option<Config>, now: u64) -> Daemon {
    let managed = config.as_ref().is_some_and(|c| c.managed);
    let configured = config.as_ref().is_some_and(|c| c.configured());
    let (mut daemon, next) = Daemon::start(config, now);
    assert!(matches!(operation(next), Operation::OpenSession));
    assert!(matches!(
        operation(daemon.resume(now, Outcome::Done)),
        Operation::FindAdapter { .. }
    ));
    let mut next = daemon.resume(now, Outcome::Done);
    if managed {
        assert_eq!(device_of(operation(next)), DEVICE);
        next = daemon.resume(now, Outcome::Done);
    }
    assert!(matches!(operation(next), Operation::ListPaired));
    let devices = vec![PairedDevice { address: DEVICE.to_string(), name: "Buds".to_string() }];
    assert!(matches!(
        operation(daemon.resume(now, Outcome::Devices(devices))),
        Operation::QueryPowered
    ));
    let mut next = daemon.resume(now, Outcome::Flag(true));
    if configured {
        assert!(matches!(operation(next), Operation::StartScanner { .. }));
        next = daemon.resume(now, Outcome::Done);
    }
    assert!(published(&mut daemon, now, next).is_none());
    daemon
}

/// Lets an advertisement of a worn device lead to a connection that is being made.
fn connecting(daemon: &mut Daemon, now: u64) -> u64 {
    let next = daemon.begin(now, seen(WORN, now, true));
    match operation(next) {
        Operation::SetBlocked { address, blocked } => {
            assert_eq!(address, [0xAA, 0xBB, 0xCC, 0xDD, 0xEE, 0xFF]);
            assert!(!blocked);
        }
        _ => panic!("the device is not unblocked"),
    }
    let generation = match operation(daemon.resume(now, Outcome::Done)) {
        Operation::StartConnection { config, generation } => {
            assert_eq!(config.address, DEVICE);
            generation
        }
        _ => panic!("no connection is made"),
    };
    let next = daemon.resume(now, Outcome::Done);
    assert!(published(daemon, now, next).is_none());
    assert_eq!(daemon.actor.snapshot.status, "connecting");
    generation
}

/// Opens the control channel.
fn attached(daemon: &mut Daemon, now: u64, generation: u64) {
    let next = daemon.begin(now, Trigger::Event(Event::Ready { generation, result: Ok(()) }));
    assert!(published(daemon, now, next).is_none());
    assert!(daemon.actor.socket);
    assert!(!daemon.actor.snapshot.connected);
}

/// A daemon whose device is connected and worn.
fn live(now: u64) -> Daemon {
    let mut daemon = started(Some(config(true, true)), now);
    let generation = connecting(&mut daemon, now + 1);
    attached(&mut daemon, now + 2, generation);
    let next = daemon.begin(now + 3, ears(0, 1));
    assert!(matches!(operation(next), Operation::Publish));
    assert!(daemon.actor.snapshot.connected);
    match operation(daemon.resume(now + 3, Outcome::Done)) {
        Operation::StartAudio { device, .. } => assert_eq!(device, DEVICE),
        _ => panic!("no audio is arranged"),
    }
    let next = daemon.resume(now + 3, Outcome::Done);
    assert!(published(&mut daemon, now + 3, next).is_none());
    daemon
}

#[test]
fn a_start_without_configuration_demands_setup() {
    let daemon = started(None, 0);
    assert_eq!(daemon.actor.snapshot.status, "setup_required");
    assert_eq!(daemon.actor.snapshot.name, "AirPods");
    assert_eq!(daemon.actor.snapshot.paired_devices.len(), 1);
    assert!(!daemon.actor.scan);
    assert!(daemon.actor.adapter);
}

#[test]
fn a_start_protects_before_it_discovers() {
    let daemon = started(Some(config(true, true)), 5);
    assert_eq!(daemon.actor.snapshot.status, "idle");
    assert_eq!(daemon.actor.snapshot.name, "Buds");
    assert!(daemon.actor.snapshot.configured);
    assert!(daemon.actor.scan);
    assert_eq!(daemon.actor.snapshot.error, None);
}

#[test]
fn the_configured_adapter_is_looked_for() {
    let (mut daemon, _) = Daemon::start(Some(config(false, false)), 0);
    match operation(daemon.resume(0, Outcome::Done)) {
        Operation::FindAdapter { adapter } => assert_eq!(adapter, Some(ADAPTER.to_string())),
        _ => panic!("no adapter is looked for"),
    }
    let (mut daemon, _) = Daemon::start(None, 0);
    match operation(daemon.resume(0, Outcome::Done)) {
        Operation::FindAdapter { adapter } => assert_eq!(adapter, None),
        _ => panic!("no adapter is looked for"),
    }
}

#[test]
fn a_failed_start_is_shown_and_tried_again() {
    let (mut daemon, _) = Daemon::start(Some(config(true, true)), 0);
    let next = daemon.resume(0, Outcome::Failed("no service".to_string()));
    assert!(published(&mut daemon, 0, next).is_none());
    assert_eq!(daemon.actor.snapshot.status, "error");
    assert_eq!(daemon.actor.snapshot.error, Some("no service".to_string()));
    let next = daemon.begin(4 * SECOND, Trigger::Tick);
    assert!(published(&mut daemon, 4 * SECOND, next).is_none());
    let next = daemon.begin(5 * SECOND, Trigger::Tick);
    assert!(matches!(operation(next), Operation::OpenSession));
}

#[test]
fn an_adapter_that_is_off_is_given_up_after_the_block() {
    let (mut daemon, _) = Daemon::start(Some(config(true, true)), 0);
    daemon.resume(0, Outcome::Done);
    daemon.resume(0, Outcome::Done);
    daemon.resume(0, Outcome::Done);
    daemon.resume(0, Outcome::Devices(Vec::new()));
    let next = daemon.resume(0, Outcome::Flag(false));
    assert_eq!(device_of(operation(next)), DEVICE);
    let next = daemon.resume(0, Outcome::Failed("busy".to_string()));
    assert!(published(&mut daemon, 0, next).is_none());
    assert_eq!(
        daemon.actor.snapshot.error,
        Some("Bluetooth adapter is powered off; guard could not be confirmed: busy".to_string())
    );
    assert!(!daemon.actor.adapter);
    assert!(!daemon.actor.session);
}

#[test]
fn wearing_leads_to_one_connection_and_live_state() {
    let daemon = live(SECOND);
    assert_eq!(daemon.actor.snapshot.status, "connected");
    assert!(daemon.actor.audio);
    assert!(daemon.actor.require_removal);
    assert_eq!(daemon.actor.snapshot.in_ear, [None, None]);
}

#[test]
fn cached_observations_are_shown_but_never_authorize() {
    let mut daemon = started(Some(config(true, true)), SECOND);
    let next = daemon.begin(SECOND + 1, seen(WORN, SECOND + 1, false));
    assert!(published(&mut daemon, SECOND + 1, next).is_none());
    assert_eq!(daemon.actor.snapshot.in_ear, [Some(true), Some(false)]);
    assert!(!daemon.actor.require_removal);
    assert!(!daemon.actor.connection);
}

#[test]
fn old_observations_never_authorize() {
    let mut daemon = started(Some(config(true, true)), SECOND);
    // Received before the last reset.
    let next = daemon.begin(SECOND + 1, seen(WORN, SECOND, true));
    assert!(published(&mut daemon, SECOND + 1, next).is_none());
    assert_eq!(daemon.actor.snapshot.in_ear, [None, None]);
    // More than three seconds old.
    let next = daemon.begin(5 * SECOND, seen(WORN, 2 * SECOND - 1, true));
    assert!(published(&mut daemon, 5 * SECOND, next).is_none());
    assert!(!daemon.actor.require_removal);
    // Just fresh enough.
    let next = daemon.begin(5 * SECOND, seen(WORN, 2 * SECOND, true));
    assert!(matches!(operation(next), Operation::SetBlocked { .. }));
}

#[test]
fn one_attempt_is_made_until_both_buds_come_out() {
    let mut daemon = started(Some(config(true, true)), SECOND);
    let generation = connecting(&mut daemon, SECOND + 1);
    let next = daemon.begin(
        SECOND + 2,
        Trigger::Event(Event::Ready { generation, result: Err("refused".to_string()) }),
    );
    assert_eq!(device_of(operation(next)), DEVICE);
    let next = daemon.resume(SECOND + 2, Outcome::Done);
    assert!(published(&mut daemon, SECOND + 2, next).is_none());
    assert_eq!(daemon.actor.snapshot.error, Some("refused".to_string()));
    assert!(daemon.actor.require_removal);

    // The adapter comes back, and the buds are still in.
    let mut daemon = started(Some(config(true, true)), SECOND);
    let generation = connecting(&mut daemon, SECOND + 1);
    attached(&mut daemon, SECOND + 2, generation);
    let next = daemon.begin(SECOND + 3, Trigger::Received(None));
    assert_eq!(device_of(operation(next)), DEVICE);
    let next = daemon.resume(SECOND + 3, Outcome::Done);
    assert!(published(&mut daemon, SECOND + 3, next).is_none());
    let next = daemon.begin(SECOND + 4, seen(WORN, SECOND + 4, true));
    assert!(published(&mut daemon, SECOND + 4, next).is_none());
    assert!(!daemon.actor.connection);
    // One bud out is not enough.
    let next = daemon.begin(SECOND + 5, seen(OUT, SECOND + 5, true));
    assert!(published(&mut daemon, SECOND + 5, next).is_none());
    assert!(!daemon.actor.require_removal);
    connecting(&mut daemon, SECOND + 6);
}

#[test]
fn live_state_is_not_overwritten_by_advertisements() {
    let mut daemon = live(SECOND);
    let next = daemon.begin(2 * SECOND, seen(OUT, 2 * SECOND, true));
    assert!(published(&mut daemon, 2 * SECOND, next).is_none());
    assert!(daemon.actor.snapshot.connected);
    assert!(daemon.actor.socket);
}

#[test]
fn unreadable_advertisements_end_an_unconfirmed_link() {
    let mut daemon = started(Some(config(true, true)), SECOND);
    connecting(&mut daemon, SECOND + 1);
    let next = daemon.begin(
        SECOND + 2,
        Trigger::Event(Event::Advertisement { data: vec![7, 25], at: SECOND + 2, fresh: true }),
    );
    assert_eq!(device_of(operation(next)), DEVICE);
    assert!(!daemon.actor.connection);
}

#[test]
fn sides_follow_the_battery_report() {
    let mut daemon = live(SECOND);
    let report = vec![4, 0, 4, 0, 4, 0, 2, 2, 1, 80, 2, 1, 4, 1, 70, 2, 1];
    let next = daemon.begin(2 * SECOND, Trigger::Received(Some(report)));
    assert!(published(&mut daemon, 2 * SECOND, next).is_none());
    assert_eq!(daemon.actor.snapshot.in_ear, [Some(false), Some(true)]);
    assert_eq!(daemon.actor.snapshot.battery.left.percent, Some(70));
    let next = daemon.begin(2 * SECOND, ears(0, 0));
    assert!(published(&mut daemon, 2 * SECOND, next).is_none());
    assert_eq!(daemon.actor.snapshot.in_ear, [Some(true), Some(true)]);
}

#[test]
fn taking_both_buds_out_ends_the_link() {
    let mut daemon = live(SECOND);
    let next = daemon.begin(2 * SECOND, ears(1, 1));
    assert_eq!(device_of(operation(next)), DEVICE);
    assert!(!daemon.actor.snapshot.connected);
    let next = daemon.resume(2 * SECOND, Outcome::Done);
    assert!(published(&mut daemon, 2 * SECOND, next).is_none());
    assert!(!daemon.actor.require_removal);
    assert_eq!(daemon.actor.snapshot.status, "idle");
}

#[test]
fn a_device_that_stays_silent_is_blocked() {
    let mut daemon = started(Some(config(true, true)), SECOND);
    let generation = connecting(&mut daemon, SECOND + 1);
    attached(&mut daemon, SECOND + 2, generation);
    let next = daemon.begin(6 * SECOND + 1, Trigger::Tick);
    assert!(matches!(operation(next), Operation::QueryPowered));
    daemon.resume(6 * SECOND + 1, Outcome::Flag(true));
    let next = daemon.resume(6 * SECOND + 1, Outcome::Devices(Vec::new()));
    assert!(published(&mut daemon, 6 * SECOND + 1, next).is_none());
    let next = daemon.begin(6 * SECOND + 2, Trigger::Tick);
    assert_eq!(device_of(operation(next)), DEVICE);
    let next = daemon.resume(6 * SECOND + 2, Outcome::Done);
    assert!(published(&mut daemon, 6 * SECOND + 2, next).is_none());
    assert_eq!(daemon.actor.snapshot.status, "error");
    assert_eq!(
        daemon.actor.snapshot.error,
        Some(
            "AAP did not confirm in-ear status within five seconds; remove both buds before retrying"
                .to_string()
        )
    );
}

#[test]
fn a_block_that_fails_after_silence_gives_the_adapter_up() {
    let mut daemon = started(Some(config(true, true)), SECOND);
    let generation = connecting(&mut daemon, SECOND + 1);
    attached(&mut daemon, SECOND + 2, generation);
    daemon.begin(7 * SECOND, Trigger::Tick);
    let next = daemon.resume(7 * SECOND, Outcome::Failed("busy".to_string()));
    assert_eq!(device_of(operation(next)), DEVICE);
    let next = daemon.resume(7 * SECOND, Outcome::Done);
    assert!(matches!(operation(next), Operation::OpenSession));
    assert_eq!(
        daemon.actor.snapshot.error,
        Some("AAP confirmation timed out; guard failed: busy".to_string())
    );
}

#[test]
fn a_lost_channel_leaves_the_device_blocked() {
    let mut daemon = live(SECOND);
    let next = daemon.begin(2 * SECOND, Trigger::Received(Some(Vec::new())));
    assert_eq!(device_of(operation(next)), DEVICE);
    let next = daemon.resume(2 * SECOND, Outcome::Failed("busy".to_string()));
    assert_eq!(device_of(operation(next)), DEVICE);
    let next = daemon.resume(2 * SECOND, Outcome::Done);
    assert!(published(&mut daemon, 2 * SECOND, next).is_none());
    assert_eq!(
        daemon.actor.snapshot.error,
        Some("AAP link lost; guard failed: busy".to_string())
    );
}

#[test]
fn foreign_links_and_unblockings_are_undone() {
    for event in [Event::Connected(true), Event::Blocked(false)] {
        let mut daemon = started(Some(config(true, true)), SECOND);
        let next = daemon.begin(SECOND + 1, Trigger::Event(event));
        assert_eq!(device_of(operation(next)), DEVICE);
    }
    for event in [Event::Connected(false), Event::Blocked(true)] {
        let mut daemon = started(Some(config(true, true)), SECOND);
        let next = daemon.begin(SECOND + 1, Trigger::Event(event));
        assert!(published(&mut daemon, SECOND + 1, next).is_none());
    }
    let mut daemon = live(SECOND);
    let next = daemon.begin(2 * SECOND, Trigger::Event(Event::Connected(false)));
    assert_eq!(device_of(operation(next)), DEVICE);
}

#[test]
fn connections_of_an_earlier_generation_are_ignored() {
    let mut daemon = started(Some(config(true, true)), SECOND);
    let generation = connecting(&mut daemon, SECOND + 1);
    let old = Event::Ready { generation: generation - 1, result: Ok(()) };
    let next = daemon.begin(SECOND + 2, Trigger::Event(old));
    assert!(published(&mut daemon, SECOND + 2, next).is_none());
    assert!(daemon.actor.connection);
    assert!(!daemon.actor.socket);
}

#[test]
fn audio_warnings_are_shown_only_of_the_live_session() {
    let mut daemon = live(SECOND);
    let generation = daemon.actor.generation;
    let warn = |generation| {
        Trigger::Event(Event::AudioWarning { generation, message: "no codec".to_string() })
    };
    let next = daemon.begin(2 * SECOND, warn(generation + 1));
    assert!(published(&mut daemon, 2 * SECOND, next).is_none());
    assert_eq!(daemon.actor.snapshot.error, None);
    let next = daemon.begin(2 * SECOND, warn(generation));
    assert!(published(&mut daemon, 2 * SECOND, next).is_none());
    assert_eq!(daemon.actor.snapshot.error, Some("no codec".to_string()));
    assert!(daemon.actor.snapshot.connected);
}

#[test]
fn modes_are_claimed_only_when_the_device_reports_them() {
    let mut daemon = live(SECOND);
    let report = vec![4, 0, 4, 0, 4, 0, 2, 4, 1, 70, 2, 1, 2, 1, 80, 2, 1];
    let next = daemon.begin(2 * SECOND, Trigger::Received(Some(report)));
    assert!(published(&mut daemon, 2 * SECOND, next).is_none());
    let next = daemon.begin(2 * SECOND, Trigger::Command(Command::Mode(Mode::Anc)));
    assert!(matches!(operation(next), Operation::SendMode { mode: Mode::Anc }));
    let next = daemon.resume(2 * SECOND, Outcome::Done);
    assert_eq!(published(&mut daemon, 2 * SECOND, next), Some(Ok(())));
    assert_eq!(daemon.actor.snapshot.mode, None);
    let told = vec![4, 0, 4, 0, 9, 0, 0x0d, 2, 0, 0, 0];
    let next = daemon.begin(3 * SECOND, Trigger::Received(Some(told)));
    assert!(published(&mut daemon, 3 * SECOND, next).is_none());
    assert_eq!(daemon.actor.snapshot.mode, Some(Mode::Anc));
    assert!(daemon.actor.pending_mode.is_none());
    assert_eq!(daemon.actor.snapshot.error, None);
}

#[test]
fn modes_that_are_not_confirmed_are_reported() {
    let mut daemon = live(SECOND);
    let report = vec![4, 0, 4, 0, 4, 0, 1, 4, 1, 70, 2, 1];
    let next = daemon.begin(2 * SECOND, Trigger::Received(Some(report)));
    assert!(published(&mut daemon, 2 * SECOND, next).is_none());
    daemon.begin(2 * SECOND, Trigger::Command(Command::Mode(Mode::Off)));
    let next = daemon.resume(2 * SECOND, Outcome::Done);
    assert_eq!(published(&mut daemon, 2 * SECOND, next), Some(Ok(())));
    daemon.begin(7 * SECOND, Trigger::Tick);
    assert!(daemon.actor.pending_mode.is_none());
    assert_eq!(
        daemon.actor.snapshot.error,
        Some(
            "Device did not confirm the requested listening mode; showing its reported mode"
                .to_string()
        )
    );
    assert_eq!(daemon.actor.snapshot.mode, None);
}

#[test]
fn modes_need_a_worn_device() {
    let mut daemon = started(Some(config(true, true)), SECOND);
    let next = daemon.begin(SECOND + 1, Trigger::Command(Command::Mode(Mode::Off)));
    let message = "noise control requires a live in-ear connection".to_string();
    assert_eq!(published(&mut daemon, SECOND + 1, next), Some(Err(message.clone())));
    assert_eq!(daemon.actor.snapshot.error, Some(message));
    // Connected, but without a known order of the buds.
    let mut daemon = live(SECOND);
    let next = daemon.begin(2 * SECOND, Trigger::Command(Command::Mode(Mode::Off)));
    assert!(published(&mut daemon, 2 * SECOND, next).unwrap().is_err());
}

#[test]
fn observations_are_forgotten_when_they_stay_away() {
    let mut daemon = started(Some(config(true, true)), SECOND);
    let next = daemon.begin(SECOND + 1, seen(OUT, SECOND + 1, true));
    assert!(published(&mut daemon, SECOND + 1, next).is_none());
    assert_eq!(daemon.actor.snapshot.in_ear, [Some(false), Some(false)]);
    let next = daemon.begin(4 * SECOND + 1, Trigger::Tick);
    assert!(published(&mut daemon, 4 * SECOND + 1, next).is_none());
    assert_eq!(daemon.actor.snapshot.in_ear, [Some(false), Some(false)]);
    let next = daemon.begin(4 * SECOND + 2, Trigger::Tick);
    assert!(published(&mut daemon, 4 * SECOND + 2, next).is_none());
    assert_eq!(daemon.actor.snapshot.in_ear, [None, None]);
}

/// Takes setup to the step that leaves the device unblocked.
fn excepted(daemon: &mut Daemon, now: u64) {
    let next = daemon.begin(now, Trigger::Command(Command::Setup(DEVICE.to_lowercase())));
    assert!(matches!(operation(next), Operation::QueryPowered));
    assert!(matches!(
        operation(daemon.resume(now, Outcome::Flag(true))),
        Operation::QueryPaired { .. }
    ));
    assert!(matches!(
        operation(daemon.resume(now, Outcome::Flag(true))),
        Operation::QueryBlocked { .. }
    ));
    assert!(matches!(
        operation(daemon.resume(now, Outcome::Flag(false))),
        Operation::QueryAdapterAddress
    ));
    assert!(matches!(
        operation(daemon.resume(now, Outcome::Address([0, 0x11, 0x22, 0x33, 0x44, 0x55]))),
        Operation::QueryName { .. }
    ));
    match operation(daemon.resume(now, Outcome::Name(None))) {
        Operation::Save { config } => {
            assert_eq!(config.schema, 1);
            assert_eq!(config.address, DEVICE);
            assert_eq!(config.adapter, ADAPTER);
            assert_eq!(config.name, "AirPods");
            assert!(config.managed);
            assert!(!config.original_blocked);
            assert!(config.keys.is_none());
        }
        _ => panic!("nothing is stored"),
    }
    assert!(daemon.actor.config.is_none());
    assert_eq!(device_of(operation(daemon.resume(now, Outcome::Done))), DEVICE);
    assert!(matches!(operation(daemon.resume(now, Outcome::Done)), Operation::Publish));
    match operation(daemon.resume(now, Outcome::Done)) {
        Operation::Except { deadline, step: Exception::Unblock, .. } => {
            assert_eq!(deadline, u128::from(now) + 25_000_000_000);
        }
        _ => panic!("the device is not unblocked"),
    }
}

fn keys_packet() -> Vec<u8> {
    let mut packet = vec![4, 0, 4, 0, 0x31, 0, 2];
    for (kind, byte) in [(1, 7), (4, 9)] {
        packet.extend([kind, 0, 16, 0]);
        packet.extend([byte; 16]);
    }
    packet
}

#[test]
fn setup_stores_ownership_first_and_keys_last() {
    let mut daemon = started(None, SECOND);
    excepted(&mut daemon, 2 * SECOND);
    for step in [Exception::Connect, Exception::Attach, Exception::RequestKeys, Exception::Receive]
    {
        match operation(daemon.resume(2 * SECOND, Outcome::Done)) {
            Operation::Except { step: asked, .. } => {
                assert_eq!(
                    std::mem::discriminant(&asked),
                    std::mem::discriminant(&step)
                );
            }
            _ => panic!("the exception has ended"),
        }
    }
    let other = Outcome::Received(vec![4, 0, 4, 0, 6, 0, 0, 0]);
    assert!(matches!(
        operation(daemon.resume(2 * SECOND, other)),
        Operation::Except { step: Exception::Receive, .. }
    ));
    let next = daemon.resume(3 * SECOND, Outcome::Received(keys_packet()));
    assert_eq!(device_of(operation(next)), DEVICE);
    match operation(daemon.resume(3 * SECOND, Outcome::Done)) {
        Operation::Save { config } => {
            let keys = config.keys.unwrap();
            assert_eq!(keys.irk, [7; 16]);
            assert_eq!(keys.enc, [9; 16]);
        }
        _ => panic!("no keys are stored"),
    }
    assert!(matches!(
        operation(daemon.resume(3 * SECOND, Outcome::Done)),
        Operation::StartScanner { .. }
    ));
    let next = daemon.resume(3 * SECOND, Outcome::Done);
    assert_eq!(published(&mut daemon, 3 * SECOND, next), Some(Ok(())));
    assert!(daemon.actor.snapshot.configured);
    assert_eq!(daemon.actor.snapshot.status, "idle");
}

#[test]
fn the_setup_exception_ends_blocked_however_it_goes() {
    let mut daemon = started(None, SECOND);
    excepted(&mut daemon, 2 * SECOND);
    let next = daemon.resume(2 * SECOND, Outcome::Failed("late".to_string()));
    assert_eq!(device_of(operation(next)), DEVICE);
    let next = daemon.resume(2 * SECOND, Outcome::Done);
    assert_eq!(device_of(operation(next)), DEVICE);
    let next = daemon.resume(2 * SECOND, Outcome::Done);
    assert_eq!(published(&mut daemon, 2 * SECOND, next), Some(Err("late".to_string())));
    assert!(daemon.actor.config.as_ref().unwrap().managed);

    let mut daemon = started(None, SECOND);
    excepted(&mut daemon, 2 * SECOND);
    for _ in 0..4 {
        daemon.resume(2 * SECOND, Outcome::Done);
    }
    let next = daemon.resume(2 * SECOND, Outcome::Received(Vec::new()));
    assert_eq!(device_of(operation(next)), DEVICE);
    daemon.resume(2 * SECOND, Outcome::Failed("busy".to_string()));
    let next = daemon.resume(2 * SECOND, Outcome::Done);
    assert_eq!(published(&mut daemon, 2 * SECOND, next), Some(Err("busy".to_string())));
}

#[test]
fn setup_is_refused_for_good_reasons() {
    let refused = |outcomes: Vec<Outcome>| {
        let mut daemon = started(None, SECOND);
        let mut next = daemon.begin(SECOND, Trigger::Command(Command::Setup(DEVICE.to_string())));
        for outcome in outcomes {
            next = daemon.resume(SECOND, outcome);
        }
        published(&mut daemon, SECOND, next).unwrap().unwrap_err()
    };
    assert_eq!(refused(vec![Outcome::Flag(false)]), "Bluetooth adapter is powered off");
    assert_eq!(
        refused(vec![Outcome::Flag(true), Outcome::Flag(false)]),
        "setup requires an already paired device"
    );
    assert_eq!(
        refused(vec![Outcome::Flag(true), Outcome::Flag(true), Outcome::Flag(true)]),
        "selected device was already blocked; unblock it explicitly before setup"
    );
    assert_eq!(refused(vec![Outcome::Failed("gone".to_string())]), "gone");
    let mut daemon = started(None, SECOND);
    let next = daemon.begin(SECOND, Trigger::Command(Command::Setup("AA:BB".to_string())));
    assert_eq!(
        published(&mut daemon, SECOND, next),
        Some(Err("invalid Bluetooth address: invalid Bluetooth address: AA:BB".to_string()))
    );
}

#[test]
fn another_device_cannot_be_set_up_before_a_release() {
    let mut daemon = started(Some(config(true, true)), SECOND);
    let other = Command::Setup("01:02:03:04:05:06".to_string());
    let next = daemon.begin(SECOND, Trigger::Command(other));
    assert_eq!(device_of(operation(next)), DEVICE);
    let next = daemon.resume(SECOND, Outcome::Done);
    assert_eq!(
        published(&mut daemon, SECOND, next),
        Some(Err("release the managed device before selecting another".to_string()))
    );
    assert_eq!(daemon.actor.config.as_ref().unwrap().address, DEVICE);
}

#[test]
fn setting_up_the_same_device_again_keeps_its_keys() {
    let mut daemon = started(Some(config(true, true)), SECOND);
    daemon.begin(SECOND, Trigger::Command(Command::Setup(DEVICE.to_string())));
    daemon.resume(SECOND, Outcome::Flag(true));
    assert!(matches!(
        operation(daemon.resume(SECOND, Outcome::Flag(true))),
        Operation::QueryAdapterAddress
    ));
    daemon.resume(SECOND, Outcome::Address([0, 0x11, 0x22, 0x33, 0x44, 0x55]));
    match operation(daemon.resume(SECOND, Outcome::Name(Some("Mine".to_string())))) {
        Operation::Save { config } => {
            assert_eq!(config.name, "Mine");
            assert_eq!(config.keys.unwrap().enc, [2; 16]);
        }
        _ => panic!("nothing is stored"),
    }
}

#[test]
fn release_restores_before_it_gives_up() {
    let mut daemon = started(Some(config(true, true)), SECOND);
    let next = daemon.begin(SECOND, Trigger::Command(Command::Release));
    assert_eq!(device_of(operation(next)), DEVICE);
    assert!(matches!(
        operation(daemon.resume(SECOND, Outcome::Done)),
        Operation::SetBlocked { blocked: false, .. }
    ));
    match operation(daemon.resume(SECOND, Outcome::Done)) {
        Operation::Save { config } => assert!(!config.managed),
        _ => panic!("nothing is stored"),
    }
    assert!(daemon.actor.config.as_ref().unwrap().managed);
    let next = daemon.resume(SECOND, Outcome::Done);
    assert_eq!(published(&mut daemon, SECOND, next), Some(Ok(())));
    assert!(!daemon.actor.config.as_ref().unwrap().managed);
    assert_eq!(daemon.actor.snapshot.status, "setup_required");
}

#[test]
fn a_release_that_cannot_be_stored_blocks_again() {
    let mut daemon = started(Some(config(true, true)), SECOND);
    daemon.begin(SECOND, Trigger::Command(Command::Release));
    daemon.resume(SECOND, Outcome::Done);
    daemon.resume(SECOND, Outcome::Done);
    assert!(matches!(
        operation(daemon.resume(SECOND, Outcome::Failed("disk full".to_string()))),
        Operation::SetBlocked { blocked: true, .. }
    ));
    daemon.resume(SECOND, Outcome::Failed("busy".to_string()));
    let next = daemon.resume(SECOND, Outcome::Done);
    assert_eq!(
        published(&mut daemon, SECOND, next),
        Some(Err("release save failed and guard could not be restored: busy".to_string()))
    );
    assert!(daemon.actor.config.as_ref().unwrap().managed);
}

#[test]
fn a_release_without_a_device_succeeds_at_once() {
    let mut daemon = started(None, SECOND);
    let next = daemon.begin(SECOND, Trigger::Command(Command::Release));
    assert_eq!(published(&mut daemon, SECOND, next), Some(Ok(())));
}

#[test]
fn a_release_without_an_adapter_is_refused() {
    let (mut daemon, _) = Daemon::start(Some(config(true, true)), 0);
    let next = daemon.resume(0, Outcome::Failed("no service".to_string()));
    assert!(published(&mut daemon, 0, next).is_none());
    let next = daemon.begin(SECOND, Trigger::Command(Command::Release));
    assert_eq!(
        published(&mut daemon, SECOND, next),
        Some(Err("Bluetooth is unavailable; cannot restore original device setting".to_string()))
    );
}

#[test]
fn failures_of_the_radio_give_the_adapter_up() {
    let mut daemon = live(SECOND);
    let failure = Event::Failure("Bluetooth LE discovery stopped".to_string());
    let next = daemon.begin(2 * SECOND, Trigger::Event(failure));
    assert_eq!(device_of(operation(next)), DEVICE);
    let next = daemon.resume(2 * SECOND, Outcome::Done);
    assert!(published(&mut daemon, 2 * SECOND, next).is_none());
    assert!(!daemon.actor.adapter);
    assert!(!daemon.actor.scan);
    assert!(!daemon.actor.snapshot.connected);
    assert_eq!(daemon.actor.snapshot.status, "error");
}

#[test]
fn maintenance_refreshes_the_paired_devices() {
    let mut daemon = started(None, SECOND);
    let next = daemon.begin(6 * SECOND, Trigger::Tick);
    assert!(matches!(operation(next), Operation::QueryPowered));
    assert!(matches!(
        operation(daemon.resume(6 * SECOND, Outcome::Flag(true))),
        Operation::ListPaired
    ));
    let next = daemon.resume(6 * SECOND, Outcome::Devices(Vec::new()));
    assert!(published(&mut daemon, 6 * SECOND, next).is_none());
    assert_eq!(daemon.actor.snapshot.paired_devices.len(), 0);
}

#[test]
fn shutdown_blocks_before_it_stops() {
    let mut daemon = live(SECOND);
    let next = daemon.begin(2 * SECOND, Trigger::Shutdown);
    assert_eq!(device_of(operation(next)), DEVICE);
    match daemon.resume(2 * SECOND, Outcome::Failed("busy".to_string())) {
        Next::Stop { result } => assert_eq!(result, Err("busy".to_string())),
        _ => panic!("the daemon goes on"),
    }
    let mut daemon = started(None, SECOND);
    assert!(matches!(
        daemon.begin(2 * SECOND, Trigger::Shutdown),
        Next::Stop { result: Ok(()) }
    ));
}

#[test]
fn answers_to_nothing_change_nothing() {
    let mut daemon = started(None, SECOND);
    assert!(reply(daemon.resume(SECOND, Outcome::Done)).is_none());
    let next = daemon.begin(SECOND, Trigger::Command(Command::Setup(DEVICE.to_string())));
    assert!(matches!(operation(next), Operation::QueryPowered));
    assert!(reply(daemon.resume(SECOND, Outcome::Done)).is_none());
    assert!(matches!(
        operation(daemon.resume(SECOND, Outcome::Flag(true))),
        Operation::QueryPaired { .. }
    ));
}

/// A world that does what the daemon asks for, unless the operation of that number
/// is to fail.
struct World {
    blocked: bool,
    stored: Option<(String, bool)>,
    count: usize,
    failing: Option<usize>,
    packets: Vec<Vec<u8>>,
}

impl World {
    fn perform(&mut self, operation: Operation) -> Outcome {
        self.count += 1;
        let fails = self.failing == Some(self.count);
        match operation {
            Operation::Publish
            | Operation::StartConnection { .. }
            | Operation::StartAudio { .. } => return Outcome::Done,
            Operation::Except { address, step, .. } => {
                assert_eq!(address, [0xAA, 0xBB, 0xCC, 0xDD, 0xEE, 0xFF]);
                assert_eq!(self.stored, Some((DEVICE.to_string(), true)));
                self.blocked = false;
                if let (false, Exception::Receive) = (fails, step) {
                    return Outcome::Received(self.packets.pop().unwrap_or_default());
                }
            }
            Operation::SetBlocked { blocked, .. } => {
                if !blocked {
                    assert_eq!(self.stored, Some((DEVICE.to_string(), true)));
                    self.blocked = false;
                } else if !fails {
                    self.blocked = true;
                }
            }
            Operation::Block { device } => {
                assert_eq!(device, DEVICE);
                if !fails {
                    self.blocked = true;
                }
            }
            Operation::Save { config } => {
                if !fails {
                    self.stored = Some((config.address, config.managed));
                }
            }
            Operation::ListPaired if !fails => return Outcome::Devices(Vec::new()),
            Operation::QueryPowered | Operation::QueryPaired { .. } if !fails => {
                return Outcome::Flag(true);
            }
            Operation::QueryBlocked { .. } if !fails => return Outcome::Flag(false),
            Operation::QueryAdapterAddress if !fails => return Outcome::Address([1; 6]),
            Operation::QueryName { .. } if !fails => return Outcome::Name(None),
            _ => {}
        }
        if fails {
            Outcome::Failed("failed".to_string())
        } else {
            Outcome::Done
        }
    }

    /// Works until the daemon waits, and checks what holds then.
    fn work(&mut self, daemon: &mut Daemon, now: u64, mut next: Next) -> Option<bool> {
        let mut steps = 0;
        loop {
            match next {
                Next::Perform(operation) => {
                    let outcome = self.perform(operation);
                    next = daemon.resume(now, outcome);
                    steps += 1;
                    assert!(steps <= 30);
                }
                Next::Wait { reply } => {
                    let actor = &daemon.actor;
                    let managed = actor.config.as_ref().is_some_and(|c| c.managed);
                    if managed && actor.adapter && !actor.connection && !actor.socket {
                        assert!(self.blocked);
                    }
                    assert_eq!(actor.snapshot.connected, actor.live_ears);
                    let followed = actor.config.as_ref().map(|c| (c.address.clone(), c.managed));
                    assert_eq!(followed, self.stored);
                    return reply.map(|reply| reply.is_ok());
                }
                Next::Stop { .. } => return None,
            }
        }
    }
}

/// Sets a device up, wears it, loses it, releases it; one operation may fail.
fn lifetime(failing: Option<usize>) -> usize {
    let mut world = World {
        blocked: false,
        stored: None,
        count: 0,
        failing,
        packets: vec![keys_packet(), vec![4, 0, 4, 0, 6, 0, 0, 0]],
    };
    let (mut daemon, first) = Daemon::start(None, 0);
    assert_eq!(world.work(&mut daemon, 0, first), None);
    let mut now = 0;
    let happen = |daemon: &mut Daemon, world: &mut World, now: u64, trigger: Trigger| {
        let owed = matches!(trigger, Trigger::Command(_));
        let next = daemon.begin(now, trigger);
        let reply = world.work(daemon, now, next);
        assert_eq!(reply.is_some(), owed);
    };
    for round in 0..3 {
        now += SECOND;
        happen(
            &mut daemon,
            &mut world,
            now,
            Trigger::Command(Command::Setup(DEVICE.to_string())),
        );
        now += 1;
        happen(&mut daemon, &mut world, now, seen(OUT, now, true));
        now += 1;
        happen(&mut daemon, &mut world, now, seen(WORN, now, true));
        if daemon.actor.connection {
            now += 1;
            let generation = daemon.actor.generation;
            let ready = Event::Ready { generation, result: Ok(()) };
            happen(&mut daemon, &mut world, now, Trigger::Event(ready));
            now += 1;
            happen(&mut daemon, &mut world, now, ears(0, 0));
            assert!(daemon.actor.snapshot.connected);
            let end = if round == 0 { ears(1, 1) } else { Trigger::Received(None) };
            happen(&mut daemon, &mut world, now, end);
        }
        now += 10 * SECOND;
        happen(&mut daemon, &mut world, now, Trigger::Tick);
        if round > 0 {
            happen(&mut daemon, &mut world, now, Trigger::Command(Command::Release));
        }
    }
    let next = daemon.begin(now, Trigger::Shutdown);
    assert_eq!(world.work(&mut daemon, now, next), None);
    world.count
}

#[test]
fn the_device_is_blocked_whenever_the_daemon_waits_without_a_link() {
    let operations = lifetime(None);
    assert!(operations > 60);
    for failing in 1..=operations {
        lifetime(Some(failing));
    }
}
