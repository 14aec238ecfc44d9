//! The connection policy: what the daemon knows, what it asks for, and how it goes
//! on when it is answered.
use crate::address;
use crate::bluetooth::EventView;
use crate::model::{
    both_out, initial_snapshot, unknown_battery, unknown_ears, worn, Battery, Ears, Mode,
    PairedDeviceView, SnapshotView,
};
use crate::protocol::{self, PacketView, ReceivedKeysView};
use crate::storage::{ConfigView, KeysView};
use vstd::prelude::*;

verus! {

/// For how long an observation may authorize, in nanoseconds.
pub const FRESH: u64 = 3_000_000_000;

/// How long a device has to confirm a mode or that it is worn, and the time
/// between two looks at the adapter, in nanoseconds.
pub const PATIENCE: u64 = 5_000_000_000;

/// For how long setup may leave the device unblocked, in nanoseconds.
pub const SETUP: u64 = 25_000_000_000;

/// The time from `then` to `now`; none if `then` is later.
pub open spec fn elapsed(now: u64, then: u64) -> int {
    if now >= then {
        now - then
    } else {
        0
    }
}

/// What the daemon knows. The flags say which of its resources are held.
pub struct ActorView {
    pub config: Option<ConfigView>,
    pub session: bool,
    pub adapter: bool,
    pub scan: bool,
    pub connection: bool,
    pub socket: bool,
    pub audio: bool,
    pub generation: u64,
    pub cutoff: u64,
    pub last_ble: Option<u64>,
    pub ear_deadline: Option<int>,
    pub live_ears: bool,
    pub require_removal: bool,
    pub primary_left: Option<bool>,
    pub aap_ears: Ears,
    pub pending_mode: Option<(Mode, int)>,
    pub maintenance: Option<u64>,
    pub snapshot: SnapshotView,
}

/// Why the adapter is being initialized.
pub enum ReasonView {
    Start,
    Setup(Seq<u8>),
    Maintenance,
}

/// What follows once the daemon is offline.
pub enum AfterView {
    Publish,
    Reply(Seq<char>),
    Maintain,
}

/// The steps for which setup leaves the device unblocked.
#[derive(Clone, Copy)]
pub enum Exception {
    Unblock,
    Connect,
    Attach,
    RequestKeys,
    Receive,
}

/// What an answer is awaited for.
pub enum PhaseView {
    Idle,
    Opening(ReasonView),
    Finding(ReasonView),
    Protecting(ReasonView),
    Listing(ReasonView),
    Powering(ReasonView),
    Scanning(ReasonView),
    Offline { reason: Seq<char>, after: AfterView },
    SetupPower { address: Seq<u8> },
    SetupPaired { address: Seq<u8> },
    SetupBlocked { address: Seq<u8> },
    SetupAdapter { address: Seq<u8>, original_blocked: bool, keys: Option<KeysView> },
    SetupName {
        address: Seq<u8>,
        original_blocked: bool,
        keys: Option<KeysView>,
        adapter: Seq<u8>,
    },
    SetupSaving { address: Seq<u8>, config: ConfigView },
    SetupGuarding { address: Seq<u8>, config: ConfigView },
    SetupAnnouncing { address: Seq<u8>, config: ConfigView },
    Excepted {
        address: Seq<u8>,
        config: ConfigView,
        deadline: int,
        received: ReceivedKeysView,
        step: Exception,
    },
    Closing { config: ConfigView, result: Result<KeysView, Seq<char>> },
    StoringKeys { config: ConfigView, guard: Option<Seq<char>> },
    SetupScanning,
    Releasing,
    Restoring { address: Seq<u8>, config: ConfigView },
    Relinquishing { address: Seq<u8>, config: ConfigView },
    Reblocking { address: Seq<u8>, reason: Seq<char> },
    Sending { mode: Mode },
    Unblocking { address: Seq<u8>, config: ConfigView },
    Connecting,
    Guarding { ears: Option<Ears> },
    Announcing,
    Preferring,
    Losing,
    Expiring,
    TickPower,
    TickPaired,
    Publishing { reply: Option<Result<(), Seq<char>>> },
    Stopping,
    Stopped,
}

/// What the daemon asks for.
pub enum OperationView {
    OpenSession,
    FindAdapter { adapter: Option<Seq<char>> },
    Block { device: Seq<char> },
    ListPaired,
    QueryPowered,
    StartScanner { config: ConfigView },
    QueryPaired { address: Seq<u8> },
    QueryBlocked { address: Seq<u8> },
    QueryAdapterAddress,
    QueryName { address: Seq<u8> },
    Save { config: ConfigView },
    Publish,
    Except { address: Seq<u8>, deadline: int, step: Exception },
    SetBlocked { address: Seq<u8>, blocked: bool },
    SendMode { mode: Mode },
    StartConnection { config: ConfigView, generation: u64 },
    StartAudio { device: Seq<char>, generation: u64 },
}

/// How the daemon goes on: it asks for something, waits for something to happen,
/// or has stopped.
pub enum NextView {
    Perform(OperationView),
    Wait { reply: Option<Result<(), Seq<char>>> },
    Stop { failure: Option<Seq<char>> },
}

/// How what was asked for ended.
pub enum OutcomeView {
    Done,
    Flag(bool),
    Devices(Seq<PairedDeviceView>),
    Address(Seq<u8>),
    Name(Option<Seq<char>>),
    Received(Seq<u8>),
    Failed(Seq<char>),
}

/// A request of a client.
pub enum CommandView {
    Setup(Seq<char>),
    Mode(Mode),
    Release,
}

/// Something that happens while the daemon waits. Bytes that are missing or empty
/// mean that the control channel is gone.
pub enum TriggerView {
    Command(CommandView),
    Event(EventView),
    Received(Option<Seq<u8>>),
    Tick,
    Shutdown,
}

/// The daemon between two answers.
pub struct DaemonView {
    pub actor: ActorView,
    pub phase: PhaseView,
}

/// The daemon after an answer, and how it goes on.
pub type TurnView = (DaemonView, NextView);

/// The two ears in the order of the entries of the battery report.
pub open spec fn sided(primary_left: Option<bool>, ears: Ears) -> Ears {
    match primary_left {
        Some(true) => ears,
        Some(false) => (ears.1, ears.0),
        None => unknown_ears(),
    }
}

impl ActorView {
    pub open spec fn configured(self) -> bool {
        self.config matches Some(config) && config.configured()
    }

    /// The device to block, if there is one under control and an adapter to do it.
    pub open spec fn guarded_device(self) -> Option<Seq<char>> {
        match self.config {
            Some(config) => if self.adapter && config.managed {
                Some(config.address)
            } else {
                None
            },
            None => None,
        }
    }

    /// A connection is being made or a channel is open.
    pub open spec fn linked(self) -> bool {
        self.connection || self.socket
    }

    pub open spec fn status(self, status: Seq<char>) -> ActorView {
        ActorView { snapshot: SnapshotView { status, ..self.snapshot }, ..self }
    }

    pub open spec fn message(self, error: Option<Seq<char>>) -> ActorView {
        ActorView { snapshot: SnapshotView { error, ..self.snapshot }, ..self }
    }

    pub open spec fn name(self, name: Seq<char>) -> ActorView {
        ActorView { snapshot: SnapshotView { name, ..self.snapshot }, ..self }
    }

    pub open spec fn ears(self, in_ear: Ears) -> ActorView {
        ActorView { snapshot: SnapshotView { in_ear, ..self.snapshot }, ..self }
    }

    pub open spec fn devices(self, paired_devices: Seq<PairedDeviceView>) -> ActorView {
        ActorView { snapshot: SnapshotView { paired_devices, ..self.snapshot }, ..self }
    }

    pub open spec fn failed(self, message: Seq<char>) -> ActorView {
        self.status("error"@).message(Some(message))
    }

    /// Nothing that was observed before `now` counts any more.
    pub open spec fn reset(self, now: u64) -> ActorView {
        ActorView {
            live_ears: false,
            primary_left: None,
            aap_ears: unknown_ears(),
            last_ble: None,
            ear_deadline: None,
            pending_mode: None,
            cutoff: now,
            generation: if self.generation == u64::MAX {
                0
            } else {
                (self.generation + 1) as u64
            },
            snapshot: SnapshotView {
                connected: false,
                in_ear: unknown_ears(),
                battery: unknown_battery(),
                mode: None,
                configured: self.configured(),
                status: if self.configured() { "idle"@ } else { "setup_required"@ },
                ..self.snapshot
            },
            ..self
        }
    }

    /// No link is left and nothing is known of the device.
    pub open spec fn guarded(self, now: u64) -> ActorView {
        ActorView { connection: false, audio: false, socket: false, ..self }.reset(now)
    }

    pub open spec fn unscanned(self) -> ActorView {
        ActorView { scan: false, ..self }
    }

    pub open spec fn ask(self, phase: PhaseView, operation: OperationView) -> TurnView {
        (DaemonView { actor: self, phase }, NextView::Perform(operation))
    }

    /// Shows the snapshot, then answers a request if there is one.
    pub open spec fn publish(self, reply: Option<Result<(), Seq<char>>>) -> TurnView {
        self.ask(PhaseView::Publishing { reply }, OperationView::Publish)
    }

    pub open spec fn settle(self) -> TurnView {
        self.publish(None)
    }

    pub open spec fn succeed(self) -> TurnView {
        self.publish(Some(Ok(())))
    }

    /// Drops every link, blocks the device, and gives the adapter up.
    pub open spec fn offline(self, now: u64, reason: Seq<char>, after: AfterView) -> TurnView {
        let guarded = self.unscanned().guarded(now);
        match guarded.guarded_device() {
            Some(device) => guarded.ask(
                PhaseView::Offline { reason, after },
                OperationView::Block { device },
            ),
            None => guarded.gone(now, reason, None, after),
        }
    }

    /// The adapter is given up; why is shown, with what went wrong while the device
    /// was blocked.
    pub open spec fn given_up(self, reason: Seq<char>, guard: Option<Seq<char>>) -> ActorView {
        ActorView { adapter: false, session: false, ..self }.failed(
            match guard {
                Some(failure) => reason + "; guard could not be confirmed: "@ + failure,
                None => reason,
            },
        )
    }

    pub open spec fn gone(
        self,
        now: u64,
        reason: Seq<char>,
        guard: Option<Seq<char>>,
        after: AfterView,
    ) -> TurnView {
        let gone = self.given_up(reason, guard);
        match after {
            AfterView::Publish => gone.settle(),
            AfterView::Reply(failure) => gone.publish(Some(Err(failure))),
            AfterView::Maintain => gone.maintain(now),
        }
    }

    /// A request that changes who controls the device has failed.
    pub open spec fn refuse(self, now: u64, reason: Seq<char>) -> TurnView {
        self.offline(now, reason, AfterView::Reply(reason))
    }

    pub open spec fn lose(self, now: u64, reason: Seq<char>) -> TurnView {
        self.offline(now, reason, AfterView::Publish)
    }

    /// Looks after the adapter when it is time to.
    pub open spec fn maintain(self, now: u64) -> TurnView {
        if self.maintenance matches Some(then) && elapsed(now, then) >= PATIENCE {
            let due = ActorView { maintenance: Some(now), ..self };
            if due.adapter {
                due.ask(PhaseView::TickPower, OperationView::QueryPowered)
            } else {
                due.initialize(ReasonView::Maintenance)
            }
        } else {
            self.settle()
        }
    }

    /// The time until the adapter is looked after runs from the end of the start.
    pub open spec fn started(self, now: u64) -> ActorView {
        ActorView {
            maintenance: match self.maintenance {
                Some(then) => Some(then),
                None => Some(now),
            },
            ..self
        }
    }

    pub open spec fn initialize(self, reason: ReasonView) -> TurnView {
        self.ask(PhaseView::Opening(reason), OperationView::OpenSession)
    }

    /// Protection comes first, even while the radio is off.
    pub open spec fn found(self, now: u64, reason: ReasonView) -> TurnView {
        let held = ActorView { adapter: true, session: true, ..self }.guarded(now);
        match held.guarded_device() {
            Some(device) => held.ask(
                PhaseView::Protecting(reason),
                OperationView::Block { device },
            ),
            None => held.ask(PhaseView::Listing(reason), OperationView::ListPaired),
        }
    }

    pub open spec fn powered(self, reason: ReasonView) -> TurnView {
        match self.config {
            Some(config) => if config.configured() {
                self.ask(PhaseView::Scanning(reason), OperationView::StartScanner { config })
            } else {
                self.initialized(reason)
            },
            None => self.initialized(reason),
        }
    }

    pub open spec fn initialized(self, reason: ReasonView) -> TurnView {
        let ready = self.message(
            if self.require_removal {
                Some("Connection interrupted; remove both buds before retrying"@)
            } else {
                None
            },
        );
        match reason {
            ReasonView::Setup(address) => ready.select(address),
            _ => ready.settle(),
        }
    }

    pub open spec fn uninitialized(
        self,
        now: u64,
        reason: ReasonView,
        failure: Seq<char>,
    ) -> TurnView {
        match reason {
            ReasonView::Setup(_) => self.refuse(now, failure),
            _ => self.lose(now, failure),
        }
    }

    /// Setup of the device that a text names.
    pub open spec fn setup(self, now: u64, text: Seq<char>) -> TurnView {
        match address::parsed(text) {
            Err(message) => self.refuse(now, "invalid Bluetooth address: "@ + message),
            Ok(address) => if self.config matches Some(config) && config.managed && config.address
                != address::written(address) {
                self.refuse(now, "release the managed device before selecting another"@)
            } else if self.adapter {
                self.select(address)
            } else {
                self.initialize(ReasonView::Setup(address))
            },
        }
    }

    pub open spec fn select(self, address: Seq<u8>) -> TurnView {
        self.ask(PhaseView::SetupPower { address }, OperationView::QueryPowered)
    }

    /// The configuration of a device that is under control already.
    pub open spec fn existing(self, address: Seq<u8>) -> Option<ConfigView> {
        match self.config {
            Some(config) => if config.managed && config.address == address::written(address) {
                Some(config)
            } else {
                None
            },
            None => None,
        }
    }

    pub open spec fn paired(self, address: Seq<u8>) -> TurnView {
        match self.existing(address) {
            Some(config) => self.ask(
                PhaseView::SetupAdapter {
                    address,
                    original_blocked: config.original_blocked,
                    keys: config.keys,
                },
                OperationView::QueryAdapterAddress,
            ),
            None => self.ask(
                PhaseView::SetupBlocked { address },
                OperationView::QueryBlocked { address },
            ),
        }
    }

    /// The device was taken over on disk: now it is the daemon's, and it is
    /// blocked before anything else.
    pub open spec fn owned(self, now: u64, address: Seq<u8>, config: ConfigView) -> TurnView {
        let guarded = ActorView { config: Some(config), ..self }.unscanned().guarded(now);
        match guarded.guarded_device() {
            Some(target) => guarded.ask(
                PhaseView::SetupGuarding { address, config },
                OperationView::Block { device: target },
            ),
            None => guarded.announce(address, config),
        }
    }

    pub open spec fn announce(self, address: Seq<u8>, config: ConfigView) -> TurnView {
        self.name(config.name).status("connecting"@).message(None).ask(
            PhaseView::SetupAnnouncing { address, config },
            OperationView::Publish,
        )
    }

    /// One step of the time in which setup leaves the device unblocked.
    pub open spec fn except(
        self,
        address: Seq<u8>,
        config: ConfigView,
        deadline: int,
        received: ReceivedKeysView,
        step: Exception,
    ) -> TurnView {
        self.ask(
            PhaseView::Excepted { address, config, deadline, received, step },
            OperationView::Except { address, deadline, step },
        )
    }

    /// A packet that arrives in that time.
    pub open spec fn excepted(
        self,
        now: u64,
        address: Seq<u8>,
        config: ConfigView,
        deadline: int,
        received: ReceivedKeysView,
        packet: Seq<u8>,
    ) -> TurnView {
        let all = gathered(received, packet);
        if packet.len() == 0 {
            self.close(now, config, Err("AAP connection closed before proximity keys arrived"@))
        } else {
            match complete(all) {
                Some(keys) => self.close(now, config, Ok(keys)),
                None => self.except(address, config, deadline, all, Exception::Receive),
            }
        }
    }

    /// The end of that time, however it came.
    pub open spec fn close(
        self,
        now: u64,
        config: ConfigView,
        result: Result<KeysView, Seq<char>>,
    ) -> TurnView {
        let guarded = self.guarded(now);
        match guarded.guarded_device() {
            Some(device) => guarded.ask(
                PhaseView::Closing { config, result },
                OperationView::Block { device },
            ),
            None => guarded.closed(now, config, result, None),
        }
    }

    pub open spec fn closed(
        self,
        now: u64,
        config: ConfigView,
        result: Result<KeysView, Seq<char>>,
        guard: Option<Seq<char>>,
    ) -> TurnView {
        match (result, guard) {
            (Ok(keys), _) => {
                let keyed = ConfigView { keys: Some(keys), ..config };
                self.ask(
                    PhaseView::StoringKeys { config: keyed, guard },
                    OperationView::Save { config: keyed },
                )
            },
            (Err(_), Some(failure)) => self.refuse(now, failure),
            (Err(failure), None) => self.refuse(now, failure),
        }
    }

    pub open spec fn keyed(
        self,
        now: u64,
        config: ConfigView,
        guard: Option<Seq<char>>,
    ) -> TurnView {
        let keyed = ActorView { config: Some(config), ..self };
        match guard {
            Some(failure) => keyed.refuse(now, failure),
            None => ActorView { require_removal: false, ..keyed.reset(now) }.ask(
                PhaseView::SetupScanning,
                OperationView::StartScanner { config },
            ),
        }
    }

    pub open spec fn release(self, now: u64) -> TurnView {
        let guarded = self.unscanned().guarded(now);
        match guarded.guarded_device() {
            Some(device) => guarded.ask(PhaseView::Releasing, OperationView::Block { device }),
            None => guarded.restore(now),
        }
    }

    /// The original setting is restored before the device is given up.
    pub open spec fn restore(self, now: u64) -> TurnView {
        match self.config {
            Some(config) => if !config.managed {
                self.succeed()
            } else if !self.adapter {
                self.refuse(
                    now,
                    "Bluetooth is unavailable; cannot restore original device setting"@,
                )
            } else {
                match address::parsed(config.address) {
                    Err(message) => self.refuse(now, message),
                    Ok(address) => self.ask(
                        PhaseView::Restoring { address, config },
                        OperationView::SetBlocked { address, blocked: config.original_blocked },
                    ),
                }
            },
            None => self.succeed(),
        }
    }

    pub open spec fn released(self, now: u64, config: ConfigView) -> TurnView {
        ActorView { config: Some(config), require_removal: false, ..self }.reset(now).message(
            None,
        ).succeed()
    }

    /// A mode is asked for only over a live channel to a worn device.
    pub open spec fn ask_mode(self, mode: Mode) -> TurnView {
        if !self.snapshot.connected || !self.live_ears || !worn(self.snapshot.in_ear) {
            self.complain("noise control requires a live in-ear connection"@)
        } else if !self.socket {
            self.complain("AAP control channel is unavailable"@)
        } else {
            self.ask(PhaseView::Sending { mode }, OperationView::SendMode { mode })
        }
    }

    /// The device's own report decides which mode is shown, so that what was asked
    /// for is only remembered.
    pub open spec fn remember(self, now: u64, mode: Mode) -> ActorView {
        ActorView {
            pending_mode: if self.snapshot.mode == Some(mode) {
                None
            } else {
                Some((mode, now + PATIENCE))
            },
            ..self
        }
    }

    pub open spec fn sent(self, now: u64, mode: Mode) -> TurnView {
        self.remember(now, mode).message(None).succeed()
    }

    pub open spec fn complain(self, message: Seq<char>) -> TurnView {
        self.message(Some(message)).publish(Some(Err(message)))
    }

    /// Drops every link and blocks the device; then the ears are shown, if they
    /// are known.
    pub open spec fn guard(self, now: u64, ears: Option<Ears>) -> TurnView {
        let guarded = self.guarded(now);
        match guarded.guarded_device() {
            Some(device) => guarded.ask(
                PhaseView::Guarding { ears },
                OperationView::Block { device },
            ),
            None => guarded.show(ears),
        }
    }

    pub open spec fn show(self, ears: Option<Ears>) -> TurnView {
        match ears {
            Some(ears) => self.ears(ears).settle(),
            None => self.settle(),
        }
    }

    /// The key that advertisements are read with.
    pub open spec fn reading_key(self) -> Option<Seq<u8>> {
        match self.config {
            Some(config) => match config.keys {
                Some(keys) => if config.managed { Some(keys.enc) } else { None },
                None => None,
            },
            None => None,
        }
    }

    /// An observation counts if it came after the last reset and is not too old.
    pub open spec fn counts(self, now: u64, at: u64) -> bool {
        at > self.cutoff && elapsed(now, at) <= FRESH
    }

    pub open spec fn advertised(self, now: u64, data: Seq<u8>, at: u64, fresh: bool) -> TurnView {
        match self.reading_key() {
            Some(enc) => if self.counts(now, at) {
                match protocol::advertised_to(data, enc) {
                    Some(seen) => if self.live_ears {
                        self.settle()
                    } else {
                        self.seen(now, seen, at, fresh)
                    },
                    None => if fresh && !self.live_ears && self.linked() {
                        self.guard(now, None)
                    } else {
                        self.settle()
                    },
                }
            } else {
                self.settle()
            },
            None => self.settle(),
        }
    }

    pub open spec fn shown(self, seen: protocol::AdvertisementView) -> ActorView {
        ActorView {
            snapshot: SnapshotView { battery: seen.battery, ..self.snapshot },
            ..self
        }.ears(seen.ears)
    }

    /// Only buds that are both known to be out end the wait for their removal.
    pub open spec fn taken_out(self, ears: Ears) -> ActorView {
        ActorView { require_removal: self.require_removal && !both_out(ears), ..self }
    }

    /// What an advertisement shows is shown; only a fresh one changes anything.
    pub open spec fn seen(
        self,
        now: u64,
        seen: protocol::AdvertisementView,
        at: u64,
        fresh: bool,
    ) -> TurnView {
        if !fresh {
            self.shown(seen).settle()
        } else {
            let noted = ActorView { last_ble: Some(at), ..self.shown(seen) };
            if worn(seen.ears) {
                if noted.require_removal || noted.linked() {
                    noted.settle()
                } else {
                    noted.attempt(now)
                }
            } else if noted.linked() {
                noted.taken_out(seen.ears).guard(now, Some(seen.ears))
            } else {
                noted.taken_out(seen.ears).settle()
            }
        }
    }

    /// One attempt to connect, after which both buds have to come out first.
    pub open spec fn attempt(self, now: u64) -> TurnView {
        if !self.adapter {
            self.lose(now, "Bluetooth adapter is unavailable"@)
        } else {
            let tried = ActorView { require_removal: true, ..self };
            match tried.config {
                Some(config) => match address::parsed(config.address) {
                    Err(message) => tried.lose(now, message),
                    Ok(address) => tried.ask(
                        PhaseView::Unblocking { address, config },
                        OperationView::SetBlocked { address, blocked: false },
                    ),
                },
                None => self.lose(now, "device is not configured"@),
            }
        }
    }

    pub open spec fn connect(self, config: ConfigView) -> TurnView {
        ActorView { connection: true, ..self }.status("connecting"@).message(None).ask(
            PhaseView::Connecting,
            OperationView::StartConnection { config, generation: self.generation },
        )
    }

    pub open spec fn attached(self, now: u64) -> ActorView {
        ActorView { socket: true, ear_deadline: Some(now + PATIENCE), ..self }
    }

    /// The channel is there, but nothing is shown as connected before the device
    /// itself confirms that it is worn.
    pub open spec fn ready(self, now: u64, generation: u64, failure: Option<Seq<char>>) -> TurnView {
        if generation != self.generation {
            self.settle()
        } else {
            let over = ActorView { connection: false, ..self };
            match failure {
                Some(message) => over.lose(now, message),
                None => if worn(over.snapshot.in_ear) {
                    over.attached(now).settle()
                } else {
                    over.guard(now, None)
                },
            }
        }
    }

    pub open spec fn happened(self, now: u64, event: EventView) -> TurnView {
        match event {
            EventView::Advertisement { data, at, fresh } => self.advertised(now, data, at, fresh),
            EventView::Ready { generation, failure } => self.ready(now, generation, failure),
            EventView::Connected(connected) => if connected != self.linked() {
                self.guard(now, None)
            } else {
                self.settle()
            },
            EventView::Blocked(blocked) => if !blocked && !self.linked() {
                self.guard(now, None)
            } else {
                self.settle()
            },
            EventView::Failure(message) => self.lose(now, message),
            EventView::AudioWarning { generation, message } => if generation == self.generation
                && self.live_ears {
                self.message(Some(message)).settle()
            } else {
                self.settle()
            },
        }
    }

    /// The device itself confirmed that it is worn.
    pub open spec fn live(self, shown: Ears) -> ActorView {
        ActorView {
            live_ears: true,
            ear_deadline: None,
            snapshot: SnapshotView {
                connected: true,
                in_ear: shown,
                status: "connected"@,
                ..self.snapshot
            },
            ..self
        }
    }

    /// The device says whether it is worn.
    pub open spec fn ear_report(self, now: u64, ears: Ears) -> TurnView {
        let told = ActorView { aap_ears: ears, ..self };
        let shown = sided(self.primary_left, ears);
        if !worn(ears) {
            told.taken_out(ears).guard(now, Some(shown))
        } else if self.live_ears {
            told.live(shown).settle()
        } else {
            told.live(shown).ask(PhaseView::Announcing, OperationView::Publish)
        }
    }

    pub open spec fn announced(self) -> TurnView {
        match self.config {
            Some(config) => ActorView { audio: true, ..self }.ask(
                PhaseView::Preferring,
                OperationView::StartAudio {
                    device: config.address,
                    generation: self.generation,
                },
            ),
            None => self.settle(),
        }
    }

    /// The device reports its charge and, by the order of the entries, its sides.
    pub open spec fn charged(self, battery: Battery, primary_left: Option<bool>) -> ActorView {
        let told = ActorView {
            primary_left,
            snapshot: SnapshotView { battery, ..self.snapshot },
            ..self
        };
        if self.live_ears {
            told.ears(sided(primary_left, self.aap_ears))
        } else {
            told
        }
    }

    /// The device reports its mode; a request for it is over.
    pub open spec fn in_mode(self, mode: Option<Mode>) -> ActorView {
        ActorView {
            pending_mode: match self.pending_mode {
                Some((wanted, deadline)) => if mode == Some(wanted) {
                    None
                } else {
                    Some((wanted, deadline))
                },
                None => None,
            },
            snapshot: SnapshotView { mode, ..self.snapshot },
            ..self
        }
    }

    pub open spec fn packet(self, now: u64, bytes: Seq<u8>) -> TurnView {
        match protocol::parsed(bytes) {
            Some(PacketView::Ear(ears)) => self.ear_report(now, ears),
            Some(PacketView::Batteries { battery, primary_left }) => self.charged(
                battery,
                primary_left,
            ).settle(),
            Some(PacketView::Mode(mode)) => self.in_mode(mode).settle(),
            _ => self.settle(),
        }
    }

    pub open spec fn received(self, now: u64, bytes: Option<Seq<u8>>) -> TurnView {
        match bytes {
            Some(bytes) => if bytes.len() > 0 {
                self.packet(now, bytes)
            } else {
                self.hang_up(now)
            },
            None => self.hang_up(now),
        }
    }

    /// The control channel is gone.
    pub open spec fn hang_up(self, now: u64) -> TurnView {
        let guarded = self.guarded(now);
        match guarded.guarded_device() {
            Some(device) => guarded.ask(PhaseView::Losing, OperationView::Block { device }),
            None => guarded.settle(),
        }
    }

    /// A mode that the device did not confirm in time.
    pub open spec fn unconfirmed(self, now: u64) -> ActorView {
        match self.pending_mode {
            Some((_, deadline)) => if now >= deadline {
                ActorView { pending_mode: None, ..self }.message(
                    Some(
                        "Device did not confirm the requested listening mode; showing its reported mode"@,
                    ),
                )
            } else {
                self
            },
            None => self,
        }
    }

    /// What advertisements showed is forgotten when they stay away.
    pub open spec fn forgotten(self, now: u64) -> ActorView {
        if !self.linked() && (self.last_ble matches Some(at) && elapsed(now, at) > FRESH) {
            ActorView {
                last_ble: None,
                snapshot: SnapshotView { battery: unknown_battery(), ..self.snapshot },
                ..self
            }.ears(unknown_ears())
        } else {
            self
        }
    }

    pub open spec fn tick(self, now: u64) -> TurnView {
        let told = self.unconfirmed(now);
        if told.ear_deadline matches Some(deadline) && now >= deadline {
            let guarded = told.guarded(now);
            match guarded.guarded_device() {
                Some(device) => guarded.ask(
                    PhaseView::Expiring,
                    OperationView::Block { device },
                ),
                None => guarded.expired(now),
            }
        } else {
            told.forgotten(now).maintain(now)
        }
    }

    pub open spec fn expired(self, now: u64) -> TurnView {
        self.failed(
            "AAP did not confirm in-ear status within five seconds; remove both buds before retrying"@,
        ).maintain(now)
    }

    pub open spec fn shutdown(self, now: u64) -> TurnView {
        let guarded = self.unscanned().guarded(now);
        match guarded.guarded_device() {
            Some(device) => guarded.ask(PhaseView::Stopping, OperationView::Block { device }),
            None => guarded.stopped(None),
        }
    }

    pub open spec fn stopped(self, failure: Option<Seq<char>>) -> TurnView {
        (
            DaemonView { actor: self, phase: PhaseView::Stopped },
            NextView::Stop { failure },
        )
    }
}

/// What the daemon knows at its start.
pub open spec fn fresh_actor(config: Option<ConfigView>, now: u64) -> ActorView {
    ActorView {
        config,
        session: false,
        adapter: false,
        scan: false,
        connection: false,
        socket: false,
        audio: false,
        generation: 0,
        cutoff: now,
        last_ble: None,
        ear_deadline: None,
        live_ears: false,
        require_removal: false,
        primary_left: None,
        aap_ears: unknown_ears(),
        pending_mode: None,
        maintenance: None,
        snapshot: SnapshotView {
            name: match config {
                Some(config) => config.name,
                None => initial_snapshot().name,
            },
            ..initial_snapshot()
        },
    }.reset(now)
}

/// How the daemon starts.
pub open spec fn started(config: Option<ConfigView>, now: u64) -> TurnView {
    fresh_actor(config, now).initialize(ReasonView::Start)
}

/// What the keys that have arrived are after one more packet.
pub open spec fn gathered(received: ReceivedKeysView, packet: Seq<u8>) -> ReceivedKeysView {
    match protocol::parsed(packet) {
        Some(PacketView::Keys(keys)) => ReceivedKeysView {
            irk: if keys.irk is Some { keys.irk } else { received.irk },
            enc: if keys.enc is Some { keys.enc } else { received.enc },
        },
        _ => received,
    }
}

/// Both keys, once both have arrived.
pub open spec fn complete(received: ReceivedKeysView) -> Option<KeysView> {
    match (received.irk, received.enc) {
        (Some(irk), Some(enc)) => Some(KeysView { irk, enc }),
        _ => None,
    }
}

impl DaemonView {
    /// How the daemon takes up something that happens.
    pub open spec fn begin(self, now: u64, trigger: TriggerView) -> TurnView {
        match trigger {
            TriggerView::Command(CommandView::Setup(text)) => self.actor.setup(now, text),
            TriggerView::Command(CommandView::Mode(mode)) => self.actor.ask_mode(mode),
            TriggerView::Command(CommandView::Release) => self.actor.release(now),
            TriggerView::Event(event) => self.actor.happened(now, event),
            TriggerView::Received(bytes) => self.actor.received(now, bytes),
            TriggerView::Tick => self.actor.tick(now),
            TriggerView::Shutdown => self.actor.shutdown(now),
        }
    }

    /// The outcomes that what was asked for can have.
    pub open spec fn expects(self, outcome: OutcomeView) -> bool {
        match self.phase {
            PhaseView::Idle | PhaseView::Stopped => false,
            PhaseView::Listing(_) | PhaseView::TickPaired => outcome is Devices || outcome
                is Failed,
            PhaseView::Powering(_) | PhaseView::TickPower | PhaseView::SetupPower { .. }
            | PhaseView::SetupPaired { .. } | PhaseView::SetupBlocked { .. } => outcome is Flag
                || outcome is Failed,
            PhaseView::SetupAdapter { .. } => (outcome matches OutcomeView::Address(
                address,
            ) && address.len() == 6) || outcome is Failed,
            PhaseView::SetupName { .. } => outcome is Name || outcome is Failed,
            PhaseView::Excepted { step: Exception::Receive, .. } => outcome is Received || outcome
                is Failed,
            PhaseView::SetupAnnouncing { .. } | PhaseView::Announcing | PhaseView::Connecting
            | PhaseView::Preferring | PhaseView::Publishing { .. } => outcome is Done,
            _ => outcome is Done || outcome is Failed,
        }
    }

    /// How the daemon goes on when it is answered.
    pub open spec fn resume(self, now: u64, outcome: OutcomeView) -> TurnView {
        match self.phase {
            PhaseView::Idle | PhaseView::Stopped => (self, NextView::Wait { reply: None }),
            PhaseView::Opening(_) | PhaseView::Finding(_) | PhaseView::Protecting(_)
            | PhaseView::Listing(_) | PhaseView::Powering(_) | PhaseView::Scanning(_) => {
                self.initializing(now, outcome)
            },
            PhaseView::SetupPower { .. } | PhaseView::SetupPaired { .. }
            | PhaseView::SetupBlocked { .. } | PhaseView::SetupAdapter { .. }
            | PhaseView::SetupName { .. } => self.selecting(now, outcome),
            PhaseView::SetupSaving { .. } | PhaseView::SetupGuarding { .. }
            | PhaseView::SetupAnnouncing { .. } | PhaseView::Excepted { .. }
            | PhaseView::Closing { .. } | PhaseView::StoringKeys { .. }
            | PhaseView::SetupScanning => self.taking_over(now, outcome),
            PhaseView::Releasing | PhaseView::Restoring { .. } | PhaseView::Relinquishing { .. }
            | PhaseView::Reblocking { .. } => self.releasing(now, outcome),
            _ => self.serving(now, outcome),
        }
    }

    pub open spec fn initializing(self, now: u64, outcome: OutcomeView) -> TurnView {
        let actor = self.actor;
        match (self.phase, outcome) {
            (PhaseView::Opening(reason), OutcomeView::Done) => actor.ask(
                PhaseView::Finding(reason),
                OperationView::FindAdapter {
                    adapter: match actor.config {
                        Some(config) => Some(config.adapter),
                        None => None,
                    },
                },
            ),
            (PhaseView::Opening(reason), OutcomeView::Failed(failure)) => actor.uninitialized(
                now,
                reason,
                failure,
            ),
            (PhaseView::Finding(reason), OutcomeView::Done) => actor.found(now, reason),
            (PhaseView::Finding(reason), OutcomeView::Failed(failure)) => actor.uninitialized(
                now,
                reason,
                failure,
            ),
            (PhaseView::Protecting(reason), OutcomeView::Done) => actor.ask(
                PhaseView::Listing(reason),
                OperationView::ListPaired,
            ),
            (PhaseView::Protecting(reason), OutcomeView::Failed(failure)) => actor.uninitialized(
                now,
                reason,
                failure,
            ),
            (PhaseView::Listing(reason), OutcomeView::Devices(devices)) => actor.devices(
                devices,
            ).ask(PhaseView::Powering(reason), OperationView::QueryPowered),
            (PhaseView::Listing(reason), OutcomeView::Failed(failure)) => actor.uninitialized(
                now,
                reason,
                failure,
            ),
            (PhaseView::Powering(reason), OutcomeView::Flag(true)) => actor.powered(reason),
            (PhaseView::Powering(reason), OutcomeView::Flag(false)) => actor.uninitialized(
                now,
                reason,
                "Bluetooth adapter is powered off"@,
            ),
            (PhaseView::Powering(reason), OutcomeView::Failed(failure)) => actor.uninitialized(
                now,
                reason,
                failure,
            ),
            (PhaseView::Scanning(reason), OutcomeView::Done) => ActorView {
                scan: true,
                ..actor
            }.initialized(reason),
            (PhaseView::Scanning(reason), OutcomeView::Failed(failure)) => actor.uninitialized(
                now,
                reason,
                failure,
            ),
            _ => (self, NextView::Wait { reply: None }),
        }
    }

    pub open spec fn selecting(self, now: u64, outcome: OutcomeView) -> TurnView {
        let actor = self.actor;
        match (self.phase, outcome) {
            (_, OutcomeView::Failed(failure)) => actor.refuse(now, failure),
            (PhaseView::SetupPower { address }, OutcomeView::Flag(true)) => actor.ask(
                PhaseView::SetupPaired { address },
                OperationView::QueryPaired { address },
            ),
            (PhaseView::SetupPower { .. }, OutcomeView::Flag(false)) => actor.refuse(
                now,
                "Bluetooth adapter is powered off"@,
            ),
            (PhaseView::SetupPaired { address }, OutcomeView::Flag(true)) => actor.paired(address),
            (PhaseView::SetupPaired { .. }, OutcomeView::Flag(false)) => actor.refuse(
                now,
                "setup requires an already paired device"@,
            ),
            (PhaseView::SetupBlocked { .. }, OutcomeView::Flag(true)) => actor.refuse(
                now,
                "selected device was already blocked; unblock it explicitly before setup"@,
            ),
            (PhaseView::SetupBlocked { address }, OutcomeView::Flag(false)) => actor.ask(
                PhaseView::SetupAdapter { address, original_blocked: false, keys: None },
                OperationView::QueryAdapterAddress,
            ),
            (
                PhaseView::SetupAdapter { address, original_blocked, keys },
                OutcomeView::Address(adapter),
            ) => actor.ask(
                PhaseView::SetupName { address, original_blocked, keys, adapter },
                OperationView::QueryName { address },
            ),
            (
                PhaseView::SetupName { address, original_blocked, keys, adapter },
                OutcomeView::Name(name),
            ) => {
                let config = ConfigView {
                    schema: 1,
                    adapter: address::written(adapter),
                    address: address::written(address),
                    name: match name {
                        Some(name) => name,
                        None => "AirPods"@,
                    },
                    original_blocked,
                    managed: true,
                    keys,
                };
                actor.ask(
                    PhaseView::SetupSaving { address, config },
                    OperationView::Save { config },
                )
            },
            _ => (self, NextView::Wait { reply: None }),
        }
    }

    pub open spec fn taking_over(self, now: u64, outcome: OutcomeView) -> TurnView {
        let actor = self.actor;
        match (self.phase, outcome) {
            (PhaseView::SetupSaving { address, config }, OutcomeView::Done) => actor.owned(
                now,
                address,
                config,
            ),
            (PhaseView::SetupSaving { .. }, OutcomeView::Failed(failure)) => actor.refuse(
                now,
                failure,
            ),
            (PhaseView::SetupGuarding { address, config }, OutcomeView::Done) => actor.announce(
                address,
                config,
            ),
            (PhaseView::SetupGuarding { .. }, OutcomeView::Failed(failure)) => actor.refuse(
                now,
                failure,
            ),
            (PhaseView::SetupAnnouncing { address, config }, OutcomeView::Done) => actor.except(
                address,
                config,
                now + SETUP,
                ReceivedKeysView { irk: None, enc: None },
                Exception::Unblock,
            ),
            (
                PhaseView::Excepted { address, config, deadline, received, step },
                OutcomeView::Done,
            ) => actor.except(
                address,
                config,
                deadline,
                received,
                match step {
                    Exception::Unblock => Exception::Connect,
                    Exception::Connect => Exception::Attach,
                    Exception::Attach => Exception::RequestKeys,
                    Exception::RequestKeys => Exception::Receive,
                    Exception::Receive => Exception::Receive,
                },
            ),
            (
                PhaseView::Excepted { address, config, deadline, received, step: _ },
                OutcomeView::Received(packet),
            ) => actor.excepted(now, address, config, deadline, received, packet),
            (PhaseView::Excepted { config, .. }, OutcomeView::Failed(failure)) => actor.close(
                now,
                config,
                Err(failure),
            ),
            (PhaseView::Closing { config, result }, OutcomeView::Done) => actor.closed(
                now,
                config,
                result,
                None,
            ),
            (PhaseView::Closing { config, result }, OutcomeView::Failed(failure)) => actor.closed(
                now,
                config,
                result,
                Some(failure),
            ),
            (PhaseView::StoringKeys { config, guard }, OutcomeView::Done) => actor.keyed(
                now,
                config,
                guard,
            ),
            (PhaseView::StoringKeys { .. }, OutcomeView::Failed(failure)) => actor.refuse(
                now,
                failure,
            ),
            (PhaseView::SetupScanning, OutcomeView::Done) => ActorView {
                scan: true,
                ..actor
            }.succeed(),
            (PhaseView::SetupScanning, OutcomeView::Failed(failure)) => actor.refuse(now, failure),
            _ => (self, NextView::Wait { reply: None }),
        }
    }

    pub open spec fn releasing(self, now: u64, outcome: OutcomeView) -> TurnView {
        let actor = self.actor;
        match (self.phase, outcome) {
            (PhaseView::Releasing, OutcomeView::Done) => actor.restore(now),
            (PhaseView::Releasing, OutcomeView::Failed(failure)) => actor.refuse(now, failure),
            (PhaseView::Restoring { address, config }, OutcomeView::Done) => {
                let given_up = ConfigView { managed: false, ..config };
                actor.ask(
                    PhaseView::Relinquishing { address, config: given_up },
                    OperationView::Save { config: given_up },
                )
            },
            (PhaseView::Restoring { .. }, OutcomeView::Failed(failure)) => actor.refuse(
                now,
                failure,
            ),
            (PhaseView::Relinquishing { config, .. }, OutcomeView::Done) => actor.released(
                now,
                config,
            ),
            (PhaseView::Relinquishing { address, .. }, OutcomeView::Failed(reason)) => actor.ask(
                PhaseView::Reblocking { address, reason },
                OperationView::SetBlocked { address, blocked: true },
            ),
            (PhaseView::Reblocking { reason, .. }, OutcomeView::Done) => actor.refuse(now, reason),
            (PhaseView::Reblocking { .. }, OutcomeView::Failed(failure)) => actor.refuse(
                now,
                "release save failed and guard could not be restored: "@ + failure,
            ),
            _ => (self, NextView::Wait { reply: None }),
        }
    }

    pub open spec fn serving(self, now: u64, outcome: OutcomeView) -> TurnView {
        let actor = self.actor;
        match (self.phase, outcome) {
            (PhaseView::Offline { reason, after }, OutcomeView::Done) => actor.gone(
                now,
                reason,
                None,
                after,
            ),
            (PhaseView::Offline { reason, after }, OutcomeView::Failed(failure)) => actor.gone(
                now,
                reason,
                Some(failure),
                after,
            ),
            (PhaseView::Sending { mode }, OutcomeView::Done) => actor.sent(now, mode),
            (PhaseView::Sending { .. }, OutcomeView::Failed(failure)) => actor.complain(failure),
            (PhaseView::Unblocking { config, .. }, OutcomeView::Done) => actor.connect(config),
            (PhaseView::Unblocking { .. }, OutcomeView::Failed(failure)) => actor.lose(
                now,
                failure,
            ),
            (PhaseView::Connecting, OutcomeView::Done) => actor.settle(),
            (PhaseView::Guarding { ears }, OutcomeView::Done) => actor.show(ears),
            (PhaseView::Guarding { .. }, OutcomeView::Failed(failure)) => actor.lose(now, failure),
            (PhaseView::Announcing, OutcomeView::Done) => actor.announced(),
            (PhaseView::Preferring, OutcomeView::Done) => actor.settle(),
            (PhaseView::Losing, OutcomeView::Done) => actor.settle(),
            (PhaseView::Losing, OutcomeView::Failed(failure)) => actor.lose(
                now,
                "AAP link lost; guard failed: "@ + failure,
            ),
            (PhaseView::Expiring, OutcomeView::Done) => actor.expired(now),
            (PhaseView::Expiring, OutcomeView::Failed(failure)) => actor.offline(
                now,
                "AAP confirmation timed out; guard failed: "@ + failure,
                AfterView::Maintain,
            ),
            (PhaseView::TickPower, OutcomeView::Flag(true)) => actor.ask(
                PhaseView::TickPaired,
                OperationView::ListPaired,
            ),
            (PhaseView::TickPower, OutcomeView::Flag(false)) => actor.lose(
                now,
                "Bluetooth adapter is powered off"@,
            ),
            (PhaseView::TickPower, OutcomeView::Failed(failure)) => actor.lose(now, failure),
            (PhaseView::TickPaired, OutcomeView::Devices(devices)) => actor.devices(
                devices,
            ).settle(),
            (PhaseView::TickPaired, OutcomeView::Failed(failure)) => actor.lose(now, failure),
            (PhaseView::Publishing { reply }, OutcomeView::Done) => (
                DaemonView { actor: actor.started(now), phase: PhaseView::Idle },
                NextView::Wait { reply },
            ),
            (PhaseView::Stopping, OutcomeView::Done) => actor.stopped(None),
            (PhaseView::Stopping, OutcomeView::Failed(failure)) => actor.stopped(Some(failure)),
            _ => (self, NextView::Wait { reply: None }),
        }
    }
}

} // verus!
