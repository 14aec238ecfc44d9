//! The daemon that follows the connection policy. Whoever runs it performs what it
//! asks for and hands it what happens.
use crate::address;
use crate::bluetooth::Event;
use crate::model::{ears_of, removed, wearing, Battery, Mode, PairedDevice, Snapshot};
use crate::policy::{
    elapsed, gathered, ActorView, AfterView, CommandView, DaemonView, Exception, NextView,
    OperationView, OutcomeView, PhaseView, ReasonView, TriggerView, TurnView, FRESH, PATIENCE,
    SETUP,
};
use crate::protocol::{self, Advertisement, Packet, ReceivedKeys};
use crate::storage::{failure, Config, Keys, KeysView};
use crate::text;
use vstd::prelude::*;

verus! {

/// A request of a client.
pub enum Command {
    Setup(String),
    Mode(Mode),
    Release,
}

impl View for Command {
    type V = CommandView;

    open spec fn view(&self) -> CommandView {
        match self {
            Command::Setup(address) => CommandView::Setup(address@),
            Command::Mode(mode) => CommandView::Mode(*mode),
            Command::Release => CommandView::Release,
        }
    }
}

/// Something that happens while the daemon waits.
pub enum Trigger {
    Command(Command),
    Event(Event),
    Received(Option<Vec<u8>>),
    Tick,
    Shutdown,
}

/// The bytes of a packet that may be missing.
pub open spec fn packet_bytes(bytes: Option<Vec<u8>>) -> Option<Seq<u8>> {
    match bytes {
        Some(bytes) => Some(bytes@),
        None => None,
    }
}

impl View for Trigger {
    type V = TriggerView;

    open spec fn view(&self) -> TriggerView {
        match self {
            Trigger::Command(command) => TriggerView::Command(command@),
            Trigger::Event(event) => TriggerView::Event(event@),
            Trigger::Received(bytes) => TriggerView::Received(packet_bytes(*bytes)),
            Trigger::Tick => TriggerView::Tick,
            Trigger::Shutdown => TriggerView::Shutdown,
        }
    }
}

/// Why the adapter is being initialized.
pub enum Reason {
    Start,
    Setup([u8; 6]),
    Maintenance,
}

impl View for Reason {
    type V = ReasonView;

    open spec fn view(&self) -> ReasonView {
        match self {
            Reason::Start => ReasonView::Start,
            Reason::Setup(address) => ReasonView::Setup(address@),
            Reason::Maintenance => ReasonView::Maintenance,
        }
    }
}

/// What follows once the daemon is offline.
pub enum After {
    Publish,
    Reply(String),
    Maintain,
}

impl View for After {
    type V = AfterView;

    open spec fn view(&self) -> AfterView {
        match self {
            After::Publish => AfterView::Publish,
            After::Reply(failure) => AfterView::Reply(failure@),
            After::Maintain => AfterView::Maintain,
        }
    }
}

/// The keys that setup obtained, or why it did not.
pub open spec fn key_result(result: Result<Keys, String>) -> Result<KeysView, Seq<char>> {
    match result {
        Ok(keys) => Ok(keys@),
        Err(failure) => Err(failure@),
    }
}

/// The answer to a request, if there is one.
pub open spec fn reply_of(reply: Option<Result<(), String>>) -> Option<Result<(), Seq<char>>> {
    match reply {
        Some(Ok(_)) => Some(Ok(())),
        Some(Err(failure)) => Some(Err(failure@)),
        None => None,
    }
}

/// What an answer is awaited for.
pub enum Phase {
    Idle,
    Opening(Reason),
    Finding(Reason),
    Protecting(Reason),
    Listing(Reason),
    Powering(Reason),
    Scanning(Reason),
    Offline { reason: String, after: After },
    SetupPower { address: [u8; 6] },
    SetupPaired { address: [u8; 6] },
    SetupBlocked { address: [u8; 6] },
    SetupAdapter { address: [u8; 6], original_blocked: bool, keys: Option<Keys> },
    SetupName { address: [u8; 6], original_blocked: bool, keys: Option<Keys>, adapter: [u8; 6] },
    SetupSaving { address: [u8; 6], config: Config },
    SetupGuarding { address: [u8; 6], config: Config },
    SetupAnnouncing { address: [u8; 6], config: Config },
    Excepted {
        address: [u8; 6],
        config: Config,
        deadline: u128,
        received: ReceivedKeys,
        step: Exception,
    },
    Closing { config: Config, result: Result<Keys, String> },
    StoringKeys { config: Config, guard: Result<(), String> },
    SetupScanning,
    Releasing,
    Restoring { address: [u8; 6], config: Config },
    Relinquishing { address: [u8; 6], config: Config },
    Reblocking { address: [u8; 6], reason: String },
    Sending { mode: Mode },
    Unblocking { address: [u8; 6], config: Config },
    Connecting,
    Guarding { ears: Option<[Option<bool>; 2]> },
    Announcing,
    Preferring,
    Losing,
    Expiring,
    TickPower,
    TickPaired,
    Publishing { reply: Option<Result<(), String>> },
    Stopping,
    Stopped,
}

impl View for Phase {
    type V = PhaseView;

    open spec fn view(&self) -> PhaseView {
        match self {
            Phase::Idle => PhaseView::Idle,
            Phase::Opening(reason) => PhaseView::Opening(reason@),
            Phase::Finding(reason) => PhaseView::Finding(reason@),
            Phase::Protecting(reason) => PhaseView::Protecting(reason@),
            Phase::Listing(reason) => PhaseView::Listing(reason@),
            Phase::Powering(reason) => PhaseView::Powering(reason@),
            Phase::Scanning(reason) => PhaseView::Scanning(reason@),
            Phase::Offline { reason, after } => PhaseView::Offline {
                reason: reason@,
                after: after@,
            },
            Phase::SetupPower { address } => PhaseView::SetupPower { address: address@ },
            Phase::SetupPaired { address } => PhaseView::SetupPaired { address: address@ },
            Phase::SetupBlocked { address } => PhaseView::SetupBlocked { address: address@ },
            Phase::SetupAdapter { address, original_blocked, keys } => PhaseView::SetupAdapter {
                address: address@,
                original_blocked: *original_blocked,
                keys: keys.deep_view(),
            },
            Phase::SetupName { address, original_blocked, keys, adapter } => PhaseView::SetupName {
                address: address@,
                original_blocked: *original_blocked,
                keys: keys.deep_view(),
                adapter: adapter@,
            },
            Phase::SetupSaving { address, config } => PhaseView::SetupSaving {
                address: address@,
                config: config@,
            },
            Phase::SetupGuarding { address, config } => PhaseView::SetupGuarding {
                address: address@,
                config: config@,
            },
            Phase::SetupAnnouncing { address, config } => PhaseView::SetupAnnouncing {
                address: address@,
                config: config@,
            },
            Phase::Excepted { address, config, deadline, received, step } => PhaseView::Excepted {
                address: address@,
                config: config@,
                deadline: *deadline as int,
                received: received@,
                step: *step,
            },
            Phase::Closing { config, result } => PhaseView::Closing {
                config: config@,
                result: key_result(*result),
            },
            Phase::StoringKeys { config, guard } => PhaseView::StoringKeys {
                config: config@,
                guard: failure(*guard),
            },
            Phase::SetupScanning => PhaseView::SetupScanning,
            Phase::Releasing => PhaseView::Releasing,
            Phase::Restoring { address, config } => PhaseView::Restoring {
                address: address@,
                config: config@,
            },
            Phase::Relinquishing { address, config } => PhaseView::Relinquishing {
                address: address@,
                config: config@,
            },
            Phase::Reblocking { address, reason } => PhaseView::Reblocking {
                address: address@,
                reason: reason@,
            },
            Phase::Sending { mode } => PhaseView::Sending { mode: *mode },
            Phase::Unblocking { address, config } => PhaseView::Unblocking {
                address: address@,
                config: config@,
            },
            Phase::Connecting => PhaseView::Connecting,
            Phase::Guarding { ears } => PhaseView::Guarding {
                ears: shown_ears(*ears),
            },
            Phase::Announcing => PhaseView::Announcing,
            Phase::Preferring => PhaseView::Preferring,
            Phase::Losing => PhaseView::Losing,
            Phase::Expiring => PhaseView::Expiring,
            Phase::TickPower => PhaseView::TickPower,
            Phase::TickPaired => PhaseView::TickPaired,
            Phase::Publishing { reply } => PhaseView::Publishing { reply: reply_of(*reply) },
            Phase::Stopping => PhaseView::Stopping,
            Phase::Stopped => PhaseView::Stopped,
        }
    }
}

/// What the daemon asks for. Deadlines are in nanoseconds.
pub enum Operation {
    OpenSession,
    FindAdapter { adapter: Option<String> },
    Block { device: String },
    ListPaired,
    QueryPowered,
    StartScanner { config: Config },
    QueryPaired { address: [u8; 6] },
    QueryBlocked { address: [u8; 6] },
    QueryAdapterAddress,
    QueryName { address: [u8; 6] },
    Save { config: Config },
    Publish,
    Except { address: [u8; 6], deadline: u128, step: Exception },
    SetBlocked { address: [u8; 6], blocked: bool },
    SendMode { mode: Mode },
    StartConnection { config: Config, generation: u64 },
    StartAudio { device: String, generation: u64 },
}

impl View for Operation {
    type V = OperationView;

    open spec fn view(&self) -> OperationView {
        match self {
            Operation::OpenSession => OperationView::OpenSession,
            Operation::FindAdapter { adapter } => OperationView::FindAdapter {
                adapter: adapter.deep_view(),
            },
            Operation::Block { device } => OperationView::Block { device: device@ },
            Operation::ListPaired => OperationView::ListPaired,
            Operation::QueryPowered => OperationView::QueryPowered,
            Operation::StartScanner { config } => OperationView::StartScanner { config: config@ },
            Operation::QueryPaired { address } => OperationView::QueryPaired { address: address@ },
            Operation::QueryBlocked { address } => OperationView::QueryBlocked {
                address: address@,
            },
            Operation::QueryAdapterAddress => OperationView::QueryAdapterAddress,
            Operation::QueryName { address } => OperationView::QueryName { address: address@ },
            Operation::Save { config } => OperationView::Save { config: config@ },
            Operation::Publish => OperationView::Publish,
            Operation::Except { address, deadline, step } => OperationView::Except {
                address: address@,
                deadline: *deadline as int,
                step: *step,
            },
            Operation::SetBlocked { address, blocked } => OperationView::SetBlocked {
                address: address@,
                blocked: *blocked,
            },
            Operation::SendMode { mode } => OperationView::SendMode { mode: *mode },
            Operation::StartConnection { config, generation } => OperationView::StartConnection {
                config: config@,
                generation: *generation,
            },
            Operation::StartAudio { device, generation } => OperationView::StartAudio {
                device: device@,
                generation: *generation,
            },
        }
    }
}

/// How the daemon goes on.
pub enum Next {
    Perform(Operation),
    Wait { reply: Option<Result<(), String>> },
    Stop { result: Result<(), String> },
}

impl View for Next {
    type V = NextView;

    open spec fn view(&self) -> NextView {
        match self {
            Next::Perform(operation) => NextView::Perform(operation@),
            Next::Wait { reply } => NextView::Wait { reply: reply_of(*reply) },
            Next::Stop { result } => NextView::Stop { failure: failure(*result) },
        }
    }
}

/// How what was asked for ended.
pub enum Outcome {
    Done,
    Flag(bool),
    Devices(Vec<PairedDevice>),
    Address([u8; 6]),
    Name(Option<String>),
    Received(Vec<u8>),
    Failed(String),
}

impl View for Outcome {
    type V = OutcomeView;

    open spec fn view(&self) -> OutcomeView {
        match self {
            Outcome::Done => OutcomeView::Done,
            Outcome::Flag(flag) => OutcomeView::Flag(*flag),
            Outcome::Devices(devices) => OutcomeView::Devices(devices.deep_view()),
            Outcome::Address(address) => OutcomeView::Address(address@),
            Outcome::Name(name) => OutcomeView::Name(name.deep_view()),
            Outcome::Received(packet) => OutcomeView::Received(packet@),
            Outcome::Failed(failure) => OutcomeView::Failed(failure@),
        }
    }
}

/// What the daemon knows.
pub struct Actor {
    pub config: Option<Config>,
    pub session: bool,
    pub adapter: bool,
    pub scan: bool,
    pub connection: bool,
    pub socket: bool,
    pub audio: bool,
    pub generation: u64,
    pub cutoff: u64,
    pub last_ble: Option<u64>,
    pub ear_deadline: Option<u128>,
    pub live_ears: bool,
    pub require_removal: bool,
    pub primary_left: Option<bool>,
    pub aap_ears: [Option<bool>; 2],
    pub pending_mode: Option<(Mode, u128)>,
    pub maintenance: Option<u64>,
    pub snapshot: Snapshot,
}

impl View for Actor {
    type V = ActorView;

    open spec fn view(&self) -> ActorView {
        ActorView {
            config: self.config.deep_view(),
            session: self.session,
            adapter: self.adapter,
            scan: self.scan,
            connection: self.connection,
            socket: self.socket,
            audio: self.audio,
            generation: self.generation,
            cutoff: self.cutoff,
            last_ble: self.last_ble,
            ear_deadline: match self.ear_deadline {
                Some(deadline) => Some(deadline as int),
                None => None,
            },
            live_ears: self.live_ears,
            require_removal: self.require_removal,
            primary_left: self.primary_left,
            aap_ears: ears_of(self.aap_ears),
            pending_mode: match self.pending_mode {
                Some((mode, deadline)) => Some((mode, deadline as int)),
                None => None,
            },
            maintenance: self.maintenance,
            snapshot: self.snapshot@,
        }
    }
}

impl Actor {
    /// Nothing that was observed before `now` counts any more.
    fn reset_state(&mut self, now: u64)
        ensures
            final(self)@ == old(self)@.reset(now),
    {
        let configured = match &self.config {
            Some(config) => config.configured(),
            None => false,
        };
        self.snapshot.connected = false;
        self.snapshot.in_ear = [None, None];
        self.snapshot.battery = Battery::default();
        self.snapshot.mode = None;
        self.pending_mode = None;
        self.snapshot.configured = configured;
        self.snapshot.status = if configured {
            "idle".to_owned()
        } else {
            "setup_required".to_owned()
        };
        self.live_ears = false;
        self.primary_left = None;
        self.aap_ears = [None, None];
        self.last_ble = None;
        self.ear_deadline = None;
        self.cutoff = now;
        self.generation = if self.generation == u64::MAX {
            0
        } else {
            self.generation + 1
        };
    }

    /// Drops every link.
    fn drop_links(&mut self, now: u64)
        ensures
            final(self)@ == old(self)@.guarded(now),
    {
        self.connection = false;
        self.audio = false;
        self.socket = false;
        self.reset_state(now);
    }

    /// The device to block, if there is one under control and an adapter to do it.
    fn guarded_device(&self) -> (r: Option<String>)
        ensures
            r.deep_view() == self@.guarded_device(),
    {
        match &self.config {
            Some(config) => if self.adapter && config.managed {
                Some(config.address.clone())
            } else {
                None
            },
            None => None,
        }
    }

    /// Drops every link and stops looking for advertisements.
    fn drop_all(&mut self, now: u64)
        ensures
            final(self)@ == old(self)@.unscanned().guarded(now),
    {
        self.scan = false;
        self.drop_links(now);
    }

    fn note_maintenance(&mut self, now: u64)
        ensures
            final(self)@ == (ActorView { maintenance: Some(now), ..old(self)@ }),
    {
        self.maintenance = Some(now);
    }

    fn started(&mut self, now: u64)
        ensures
            final(self)@ == old(self)@.started(now),
    {
        if self.maintenance.is_none() {
            self.maintenance = Some(now);
        }
    }

    /// Whether it is time to look after the adapter.
    fn due(&self, now: u64) -> (r: bool)
        ensures
            r == (self@.maintenance matches Some(then) && elapsed(now, then) >= PATIENCE),
    {
        match self.maintenance {
            Some(then) => now.saturating_sub(then) >= PATIENCE,
            None => false,
        }
    }

    fn hold_adapter(&mut self)
        ensures
            final(self)@ == (ActorView { adapter: true, session: true, ..old(self)@ }),
    {
        self.adapter = true;
        self.session = true;
    }

    fn scanning(&mut self)
        ensures
            final(self)@ == (ActorView { scan: true, ..old(self)@ }),
    {
        self.scan = true;
    }

    fn adopt(&mut self, config: Config)
        ensures
            final(self)@ == (ActorView { config: Some(config@), ..old(self)@ }),
    {
        self.config = Some(config);
    }

    fn require_removal(&mut self, required: bool)
        ensures
            final(self)@ == (ActorView { require_removal: required, ..old(self)@ }),
    {
        self.require_removal = required;
    }

    fn status(&mut self, status: &str)
        ensures
            final(self)@ == old(self)@.status(status@),
    {
        self.snapshot.status = status.to_owned();
    }

    fn message(&mut self, message: Option<String>)
        ensures
            final(self)@ == old(self)@.message(message.deep_view()),
    {
        self.snapshot.error = message;
    }

    fn name(&mut self, name: String)
        ensures
            final(self)@ == old(self)@.name(name@),
    {
        self.snapshot.name = name;
    }

    fn ears(&mut self, ears: [Option<bool>; 2])
        ensures
            final(self)@ == old(self)@.ears(ears_of(ears)),
    {
        self.snapshot.in_ear = ears;
    }

    fn devices(&mut self, devices: Vec<PairedDevice>)
        ensures
            final(self)@ == old(self)@.devices(devices.deep_view()),
    {
        self.snapshot.paired_devices = devices;
    }

    /// Remembers a mode that was asked for until the device reports it.
    fn remember_mode(&mut self, now: u64, mode: Mode)
        ensures
            final(self)@ == old(self)@.remember(now, mode),
    {
        self.pending_mode = if is_mode(self.snapshot.mode, mode) {
            None
        } else {
            Some((mode, now as u128 + PATIENCE as u128))
        };
    }

    /// The key that advertisements are read with.
    fn reading_key(&self) -> (r: Option<[u8; 16]>)
        ensures
            protocol::key_bytes(r) == self@.reading_key(),
    {
        match &self.config {
            Some(config) => match config.keys {
                Some(keys) => if config.managed {
                    Some(keys.enc)
                } else {
                    None
                },
                None => None,
            },
            None => None,
        }
    }

    fn linked(&self) -> (r: bool)
        ensures
            r == self@.linked(),
    {
        self.connection || self.socket
    }

    fn show_advertisement(&mut self, seen: &Advertisement)
        ensures
            final(self)@ == old(self)@.shown(seen@),
    {
        self.snapshot.in_ear = seen.ears;
        self.snapshot.battery = seen.battery;
    }

    fn note_advertisement(&mut self, at: u64)
        ensures
            final(self)@ == (ActorView { last_ble: Some(at), ..old(self)@ }),
    {
        self.last_ble = Some(at);
    }

    fn taken_out(&mut self, ears: [Option<bool>; 2])
        ensures
            final(self)@ == old(self)@.taken_out(ears_of(ears)),
    {
        if removed(ears) {
            self.require_removal = false;
        }
    }

    fn connecting(&mut self, connecting: bool)
        ensures
            final(self)@ == (ActorView { connection: connecting, ..old(self)@ }),
    {
        self.connection = connecting;
    }

    fn prefer_audio(&mut self)
        ensures
            final(self)@ == (ActorView { audio: true, ..old(self)@ }),
    {
        self.audio = true;
    }

    fn attached(&mut self, now: u64)
        ensures
            final(self)@ == old(self)@.attached(now),
    {
        self.socket = true;
        self.ear_deadline = Some(now as u128 + PATIENCE as u128);
    }

    fn hear(&mut self, ears: [Option<bool>; 2])
        ensures
            final(self)@ == (ActorView { aap_ears: ears_of(ears), ..old(self)@ }),
    {
        self.aap_ears = ears;
    }

    fn live(&mut self, shown: [Option<bool>; 2])
        ensures
            final(self)@ == old(self)@.live(ears_of(shown)),
    {
        self.live_ears = true;
        self.ear_deadline = None;
        self.snapshot.in_ear = shown;
        self.snapshot.connected = true;
        self.snapshot.status = "connected".to_owned();
    }

    fn charged(&mut self, battery: Battery, primary_left: Option<bool>)
        ensures
            final(self)@ == old(self)@.charged(battery, primary_left),
    {
        self.snapshot.battery = battery;
        self.primary_left = primary_left;
        if self.live_ears {
            let shown = self.sided_ears();
            self.snapshot.in_ear = shown;
        }
    }

    fn in_mode(&mut self, mode: Option<Mode>)
        ensures
            final(self)@ == old(self)@.in_mode(mode),
    {
        self.snapshot.mode = mode;
        let confirmed = match self.pending_mode {
            Some((wanted, _)) => is_mode(mode, wanted),
            None => false,
        };
        if confirmed {
            self.pending_mode = None;
        }
    }

    fn unconfirmed(&mut self, now: u64)
        ensures
            final(self)@ == old(self)@.unconfirmed(now),
    {
        let late = match self.pending_mode {
            Some((_, deadline)) => now as u128 >= deadline,
            None => false,
        };
        if late {
            self.pending_mode = None;
            self.snapshot.error = Some(
                "Device did not confirm the requested listening mode; showing its reported mode".to_owned(),
            );
        }
    }

    fn forgotten(&mut self, now: u64)
        ensures
            final(self)@ == old(self)@.forgotten(now),
    {
        let stale = match self.last_ble {
            Some(at) => now.saturating_sub(at) > FRESH,
            None => false,
        };
        if stale && !self.linked() {
            self.snapshot.in_ear = [None, None];
            self.snapshot.battery = Battery::default();
            self.last_ble = None;
        }
    }

    /// Whether the device had to confirm by now that it is worn.
    fn overdue(&self, now: u64) -> (r: bool)
        ensures
            r == (self@.ear_deadline matches Some(deadline) && now >= deadline),
    {
        match self.ear_deadline {
            Some(deadline) => now as u128 >= deadline,
            None => false,
        }
    }

    fn error(&mut self, message: String)
        ensures
            final(self)@ == old(self)@.failed(message@),
    {
        self.snapshot.status = "error".to_owned();
        self.snapshot.error = Some(message);
    }

    /// Gives the adapter up and says why.
    fn give_up(&mut self, reason: String, guard: Result<(), String>)
        ensures
            final(self)@ == old(self)@.given_up(reason@, failure(guard)),
    {
        self.adapter = false;
        self.session = false;
        let message = match guard {
            Ok(_) => reason,
            Err(failure) => text::join3(
                reason.as_str(),
                "; guard could not be confirmed: ",
                failure.as_str(),
            ),
        };
        self.error(message);
    }

    /// The configuration, if the device is under control and its keys are known.
    fn usable_config(&self) -> (r: Option<Config>)
        ensures
            match r {
                Some(config) => self@.config == Some(config@) && config@.configured(),
                None => !self@.configured(),
            },
    {
        match &self.config {
            Some(config) => if config.configured() {
                Some(config.clone())
            } else {
                None
            },
            None => None,
        }
    }

    /// The configuration, if the device is under control.
    fn managed_config(&self) -> (r: Option<Config>)
        ensures
            match r {
                Some(config) => self@.config == Some(config@) && config@.managed,
                None => self@.config matches Some(config) ==> !config.managed,
            },
    {
        match &self.config {
            Some(config) => if config.managed {
                Some(config.clone())
            } else {
                None
            },
            None => None,
        }
    }

    /// Whether another device than that is under control.
    fn controls_another(&self, address: [u8; 6]) -> (r: bool)
        ensures
            r == (self@.config matches Some(config) && config.managed && config.address
                != address::written(address@)),
    {
        match &self.config {
            Some(config) => config.managed && !text::same(
                config.address.as_str(),
                address::write(address).as_str(),
            ),
            None => false,
        }
    }

    /// What is kept of the configuration of a device that is under control already.
    fn existing(&self, address: [u8; 6]) -> (r: Option<(bool, Option<Keys>)>)
        ensures
            match (r, self@.existing(address@)) {
                (Some((original_blocked, keys)), Some(config)) => original_blocked
                    == config.original_blocked && keys.deep_view() == config.keys,
                (None, None) => true,
                _ => false,
            },
    {
        match &self.config {
            Some(config) => if config.managed && text::same(
                config.address.as_str(),
                address::write(address).as_str(),
            ) {
                Some((config.original_blocked, config.keys))
            } else {
                None
            },
            None => None,
        }
    }

    /// The two ears in the order of the entries of the battery report.
    fn sided_ears(&self) -> (r: [Option<bool>; 2])
        ensures
            ears_of(r) == crate::policy::sided(self@.primary_left, self@.aap_ears),
    {
        match self.primary_left {
            Some(true) => self.aap_ears,
            Some(false) => [self.aap_ears[1], self.aap_ears[0]],
            None => [None, None],
        }
    }
}

fn is_mode(reported: Option<Mode>, mode: Mode) -> (r: bool)
    ensures
        r == (reported == Some(mode)),
{
    match reported {
        Some(reported) => reported == mode,
        None => false,
    }
}

/// The ears that are shown after a guard, if they are known.
pub open spec fn shown_ears(ears: Option<[Option<bool>; 2]>) -> Option<crate::model::Ears> {
    match ears {
        Some(ears) => Some(ears_of(ears)),
        None => None,
    }
}

/// The daemon between two answers.
pub struct Daemon {
    pub actor: Actor,
    pub phase: Phase,
}

impl View for Daemon {
    type V = DaemonView;

    open spec fn view(&self) -> DaemonView {
        DaemonView { actor: self.actor@, phase: self.phase@ }
    }
}

/// The daemon after an answer, and how it goes on.
pub open spec fn turn(daemon: Daemon, next: Next) -> TurnView {
    (daemon@, next@)
}

impl Daemon {
    fn ask(&mut self, phase: Phase, operation: Operation) -> (r: Next)
        ensures
            turn(*final(self), r) == old(self)@.actor.ask(phase@, operation@),
    {
        self.phase = phase;
        Next::Perform(operation)
    }

    fn publish(&mut self, reply: Option<Result<(), String>>) -> (r: Next)
        ensures
            turn(*final(self), r) == old(self)@.actor.publish(reply_of(reply)),
    {
        self.ask(Phase::Publishing { reply }, Operation::Publish)
    }

    fn settle(&mut self) -> (r: Next)
        ensures
            turn(*final(self), r) == old(self)@.actor.settle(),
    {
        self.publish(None)
    }

    fn initialize(&mut self, reason: Reason) -> (r: Next)
        ensures
            turn(*final(self), r) == old(self)@.actor.initialize(reason@),
    {
        self.ask(Phase::Opening(reason), Operation::OpenSession)
    }

    fn maintain(&mut self, now: u64) -> (r: Next)
        ensures
            turn(*final(self), r) == old(self)@.actor.maintain(now),
    {
        if self.actor.due(now) {
            self.actor.note_maintenance(now);
            if self.actor.adapter {
                self.ask(Phase::TickPower, Operation::QueryPowered)
            } else {
                self.initialize(Reason::Maintenance)
            }
        } else {
            self.settle()
        }
    }

    fn gone(&mut self, now: u64, reason: String, guard: Result<(), String>, after: After) -> (r: Next)
        ensures
            turn(*final(self), r) == old(self)@.actor.gone(now, reason@, failure(guard), after@),
    {
        self.actor.give_up(reason, guard);
        match after {
            After::Publish => self.settle(),
            After::Reply(failure) => self.publish(Some(Err(failure))),
            After::Maintain => self.maintain(now),
        }
    }

    fn offline(&mut self, now: u64, reason: String, after: After) -> (r: Next)
        ensures
            turn(*final(self), r) == old(self)@.actor.offline(now, reason@, after@),
    {
        self.actor.drop_all(now);
        match self.actor.guarded_device() {
            Some(device) => self.ask(Phase::Offline { reason, after }, Operation::Block { device }),
            None => self.gone(now, reason, Ok(()), after),
        }
    }

    fn refuse(&mut self, now: u64, reason: String) -> (r: Next)
        ensures
            turn(*final(self), r) == old(self)@.actor.refuse(now, reason@),
    {
        let failure = reason.clone();
        self.offline(now, reason, After::Reply(failure))
    }

    fn lose(&mut self, now: u64, reason: String) -> (r: Next)
        ensures
            turn(*final(self), r) == old(self)@.actor.lose(now, reason@),
    {
        self.offline(now, reason, After::Publish)
    }

    fn found(&mut self, now: u64, reason: Reason) -> (r: Next)
        ensures
            turn(*final(self), r) == old(self)@.actor.found(now, reason@),
    {
        self.actor.hold_adapter();
        self.actor.drop_links(now);
        match self.actor.guarded_device() {
            Some(device) => self.ask(Phase::Protecting(reason), Operation::Block { device }),
            None => self.ask(Phase::Listing(reason), Operation::ListPaired),
        }
    }

    fn powered(&mut self, reason: Reason) -> (r: Next)
        ensures
            turn(*final(self), r) == old(self)@.actor.powered(reason@),
    {
        match self.actor.usable_config() {
            Some(config) => self.ask(Phase::Scanning(reason), Operation::StartScanner { config }),
            None => self.initialized(reason),
        }
    }

    fn initialized(&mut self, reason: Reason) -> (r: Next)
        ensures
            turn(*final(self), r) == old(self)@.actor.initialized(reason@),
    {
        let message = if self.actor.require_removal {
            Some("Connection interrupted; remove both buds before retrying".to_owned())
        } else {
            None
        };
        self.actor.message(message);
        match reason {
            Reason::Setup(address) => self.select(address),
            _ => self.settle(),
        }
    }

    fn uninitialized(&mut self, now: u64, reason: Reason, failure: String) -> (r: Next)
        ensures
            turn(*final(self), r) == old(self)@.actor.uninitialized(now, reason@, failure@),
    {
        match reason {
            Reason::Setup(_) => self.refuse(now, failure),
            _ => self.lose(now, failure),
        }
    }

    fn setup(&mut self, now: u64, text: String) -> (r: Next)
        ensures
            turn(*final(self), r) == old(self)@.actor.setup(now, text@),
    {
        match address::parse(text.as_str()) {
            Err(message) => {
                let reason = text::join("invalid Bluetooth address: ", message.as_str());
                self.refuse(now, reason)
            },
            Ok(address) => {
                if self.actor.controls_another(address) {
                    self.refuse(
                        now,
                        "release the managed device before selecting another".to_owned(),
                    )
                } else if self.actor.adapter {
                    self.select(address)
                } else {
                    self.initialize(Reason::Setup(address))
                }
            },
        }
    }

    fn select(&mut self, address: [u8; 6]) -> (r: Next)
        ensures
            turn(*final(self), r) == old(self)@.actor.select(address@),
    {
        self.ask(Phase::SetupPower { address }, Operation::QueryPowered)
    }

    fn paired(&mut self, address: [u8; 6]) -> (r: Next)
        ensures
            turn(*final(self), r) == old(self)@.actor.paired(address@),
    {
        match self.actor.existing(address) {
            Some((original_blocked, keys)) => self.ask(
                Phase::SetupAdapter { address, original_blocked, keys },
                Operation::QueryAdapterAddress,
            ),
            None => self.ask(Phase::SetupBlocked { address }, Operation::QueryBlocked { address }),
        }
    }

    fn owned(&mut self, now: u64, address: [u8; 6], config: Config) -> (r: Next)
        ensures
            turn(*final(self), r) == old(self)@.actor.owned(now, address@, config@),
    {
        self.actor.adopt(config.clone());
        self.actor.drop_all(now);
        match self.actor.guarded_device() {
            Some(device) => self.ask(
                Phase::SetupGuarding { address, config },
                Operation::Block { device },
            ),
            None => self.announce(address, config),
        }
    }

    fn announce(&mut self, address: [u8; 6], config: Config) -> (r: Next)
        ensures
            turn(*final(self), r) == old(self)@.actor.announce(address@, config@),
    {
        self.actor.name(config.name.clone());
        self.actor.status("connecting");
        self.actor.message(None);
        self.ask(Phase::SetupAnnouncing { address, config }, Operation::Publish)
    }

    fn except(
        &mut self,
        address: [u8; 6],
        config: Config,
        deadline: u128,
        received: ReceivedKeys,
        step: Exception,
    ) -> (r: Next)
        ensures
            turn(*final(self), r) == old(self)@.actor.except(
                address@,
                config@,
                deadline as int,
                received@,
                step,
            ),
    {
        self.ask(
            Phase::Excepted { address, config, deadline, received, step },
            Operation::Except { address, deadline, step },
        )
    }

    fn close(&mut self, now: u64, config: Config, result: Result<Keys, String>) -> (r: Next)
        ensures
            turn(*final(self), r) == old(self)@.actor.close(now, config@, key_result(result)),
    {
        self.actor.drop_links(now);
        match self.actor.guarded_device() {
            Some(device) => self.ask(Phase::Closing { config, result }, Operation::Block { device }),
            None => self.closed(now, config, result, Ok(())),
        }
    }

    fn closed(
        &mut self,
        now: u64,
        config: Config,
        result: Result<Keys, String>,
        guard: Result<(), String>,
    ) -> (r: Next)
        ensures
            turn(*final(self), r) == old(self)@.actor.closed(
                now,
                config@,
                key_result(result),
                failure(guard),
            ),
    {
        match (result, guard) {
            (Ok(keys), guard) => {
                let mut keyed = config;
                keyed.keys = Some(keys);
                let stored = keyed.clone();
                self.ask(
                    Phase::StoringKeys { config: keyed, guard },
                    Operation::Save { config: stored },
                )
            },
            (Err(_), Err(failure)) => self.refuse(now, failure),
            (Err(failure), Ok(_)) => self.refuse(now, failure),
        }
    }

    fn keyed(&mut self, now: u64, config: Config, guard: Result<(), String>) -> (r: Next)
        ensures
            turn(*final(self), r) == old(self)@.actor.keyed(now, config@, failure(guard)),
    {
        self.actor.adopt(config.clone());
        match guard {
            Err(failure) => self.refuse(now, failure),
            Ok(_) => {
                self.actor.reset_state(now);
                self.actor.require_removal(false);
                self.ask(Phase::SetupScanning, Operation::StartScanner { config })
            },
        }
    }

    fn release(&mut self, now: u64) -> (r: Next)
        ensures
            turn(*final(self), r) == old(self)@.actor.release(now),
    {
        self.actor.drop_all(now);
        match self.actor.guarded_device() {
            Some(device) => self.ask(Phase::Releasing, Operation::Block { device }),
            None => self.restore(now),
        }
    }

    fn restore(&mut self, now: u64) -> (r: Next)
        ensures
            turn(*final(self), r) == old(self)@.actor.restore(now),
    {
        match self.actor.managed_config() {
            None => self.publish(Some(Ok(()))),
            Some(config) => {
                if !self.actor.adapter {
                    return self.refuse(
                        now,
                        "Bluetooth is unavailable; cannot restore original device setting".to_owned(),
                    );
                }
                match address::parse(config.address.as_str()) {
                    Err(message) => self.refuse(now, message),
                    Ok(address) => {
                        let blocked = config.original_blocked;
                        self.ask(
                            Phase::Restoring { address, config },
                            Operation::SetBlocked { address, blocked },
                        )
                    },
                }
            },
        }
    }

    fn released(&mut self, now: u64, config: Config) -> (r: Next)
        ensures
            turn(*final(self), r) == old(self)@.actor.released(now, config@),
    {
        self.actor.adopt(config);
        self.actor.require_removal(false);
        self.actor.reset_state(now);
        self.actor.message(None);
        self.publish(Some(Ok(())))
    }

    fn ask_mode(&mut self, mode: Mode) -> (r: Next)
        ensures
            turn(*final(self), r) == old(self)@.actor.ask_mode(mode),
    {
        if !self.actor.snapshot.connected || !self.actor.live_ears || !wearing(
            self.actor.snapshot.in_ear,
        ) {
            self.complain("noise control requires a live in-ear connection".to_owned())
        } else if !self.actor.socket {
            self.complain("AAP control channel is unavailable".to_owned())
        } else {
            self.ask(Phase::Sending { mode }, Operation::SendMode { mode })
        }
    }

    fn sent(&mut self, now: u64, mode: Mode) -> (r: Next)
        ensures
            turn(*final(self), r) == old(self)@.actor.sent(now, mode),
    {
        self.actor.remember_mode(now, mode);
        self.actor.message(None);
        self.publish(Some(Ok(())))
    }

    fn complain(&mut self, message: String) -> (r: Next)
        ensures
            turn(*final(self), r) == old(self)@.actor.complain(message@),
    {
        self.actor.message(Some(message.clone()));
        self.publish(Some(Err(message)))
    }

    fn guard(&mut self, now: u64, ears: Option<[Option<bool>; 2]>) -> (r: Next)
        ensures
            turn(*final(self), r) == old(self)@.actor.guard(now, shown_ears(ears)),
    {
        self.actor.drop_links(now);
        match self.actor.guarded_device() {
            Some(device) => self.ask(Phase::Guarding { ears }, Operation::Block { device }),
            None => self.show(ears),
        }
    }

    fn show(&mut self, ears: Option<[Option<bool>; 2]>) -> (r: Next)
        ensures
            turn(*final(self), r) == old(self)@.actor.show(shown_ears(ears)),
    {
        if let Some(ears) = ears {
            self.actor.ears(ears);
        }
        self.settle()
    }

    fn advertised(&mut self, now: u64, data: &Vec<u8>, at: u64, fresh: bool) -> (r: Next)
        ensures
            turn(*final(self), r) == old(self)@.actor.advertised(now, data@, at, fresh),
    {
        if at <= self.actor.cutoff || now.saturating_sub(at) > FRESH {
            return self.settle();
        }
        match self.actor.reading_key() {
            None => self.settle(),
            Some(enc) => match protocol::advertisement(data.as_slice(), &enc) {
                None => {
                    if fresh && !self.actor.live_ears && self.actor.linked() {
                        self.guard(now, None)
                    } else {
                        self.settle()
                    }
                },
                Some(seen) => {
                    if self.actor.live_ears {
                        self.settle()
                    } else {
                        self.seen(now, seen, at, fresh)
                    }
                },
            },
        }
    }

    fn seen(&mut self, now: u64, seen: Advertisement, at: u64, fresh: bool) -> (r: Next)
        ensures
            turn(*final(self), r) == old(self)@.actor.seen(now, seen@, at, fresh),
    {
        self.actor.show_advertisement(&seen);
        if !fresh {
            return self.settle();
        }
        self.actor.note_advertisement(at);
        if wearing(seen.ears) {
            if self.actor.require_removal || self.actor.linked() {
                self.settle()
            } else {
                self.attempt(now)
            }
        } else {
            let linked = self.actor.linked();
            self.actor.taken_out(seen.ears);
            if linked {
                self.guard(now, Some(seen.ears))
            } else {
                self.settle()
            }
        }
    }

    fn attempt(&mut self, now: u64) -> (r: Next)
        ensures
            turn(*final(self), r) == old(self)@.actor.attempt(now),
    {
        if !self.actor.adapter {
            return self.lose(now, "Bluetooth adapter is unavailable".to_owned());
        }
        match &self.actor.config {
            None => self.lose(now, "device is not configured".to_owned()),
            Some(config) => {
                let config = config.clone();
                self.actor.require_removal(true);
                match address::parse(config.address.as_str()) {
                    Err(message) => self.lose(now, message),
                    Ok(address) => self.ask(
                        Phase::Unblocking { address, config },
                        Operation::SetBlocked { address, blocked: false },
                    ),
                }
            },
        }
    }

    fn connect(&mut self, config: Config) -> (r: Next)
        ensures
            turn(*final(self), r) == old(self)@.actor.connect(config@),
    {
        let generation = self.actor.generation;
        self.actor.connecting(true);
        self.actor.status("connecting");
        self.actor.message(None);
        self.ask(Phase::Connecting, Operation::StartConnection { config, generation })
    }

    fn ready(&mut self, now: u64, generation: u64, result: Result<(), String>) -> (r: Next)
        ensures
            turn(*final(self), r) == old(self)@.actor.ready(now, generation, failure(result)),
    {
        if generation != self.actor.generation {
            return self.settle();
        }
        self.actor.connecting(false);
        match result {
            Err(message) => self.lose(now, message),
            Ok(_) => {
                if wearing(self.actor.snapshot.in_ear) {
                    self.actor.attached(now);
                    self.settle()
                } else {
                    self.guard(now, None)
                }
            },
        }
    }

    fn event(&mut self, now: u64, event: Event) -> (r: Next)
        ensures
            turn(*final(self), r) == old(self)@.actor.happened(now, event@),
    {
        match event {
            Event::Advertisement { data, at, fresh } => self.advertised(now, &data, at, fresh),
            Event::Ready { generation, result } => self.ready(now, generation, result),
            Event::Connected(connected) => {
                if connected != self.actor.linked() {
                    self.guard(now, None)
                } else {
                    self.settle()
                }
            },
            Event::Blocked(blocked) => {
                if !blocked && !self.actor.linked() {
                    self.guard(now, None)
                } else {
                    self.settle()
                }
            },
            Event::Failure(message) => self.lose(now, message),
            Event::AudioWarning { generation, message } => {
                if generation == self.actor.generation && self.actor.live_ears {
                    self.actor.message(Some(message));
                }
                self.settle()
            },
        }
    }

    fn ear_report(&mut self, now: u64, ears: [Option<bool>; 2]) -> (r: Next)
        ensures
            turn(*final(self), r) == old(self)@.actor.ear_report(now, ears_of(ears)),
    {
        let first = !self.actor.live_ears;
        self.actor.hear(ears);
        let shown = self.actor.sided_ears();
        if !wearing(ears) {
            self.actor.taken_out(ears);
            self.guard(now, Some(shown))
        } else {
            self.actor.live(shown);
            if first {
                self.ask(Phase::Announcing, Operation::Publish)
            } else {
                self.settle()
            }
        }
    }

    fn announced(&mut self) -> (r: Next)
        ensures
            turn(*final(self), r) == old(self)@.actor.announced(),
    {
        match &self.actor.config {
            None => self.settle(),
            Some(config) => {
                let device = config.address.clone();
                let generation = self.actor.generation;
                self.actor.prefer_audio();
                self.ask(Phase::Preferring, Operation::StartAudio { device, generation })
            },
        }
    }

    fn packet(&mut self, now: u64, bytes: &Vec<u8>) -> (r: Next)
        ensures
            turn(*final(self), r) == old(self)@.actor.packet(now, bytes@),
    {
        match protocol::parse(bytes.as_slice()) {
            Some(Packet::Ear(ears)) => self.ear_report(now, ears),
            Some(Packet::Batteries { battery, primary_left }) => {
                self.actor.charged(battery, primary_left);
                self.settle()
            },
            Some(Packet::Mode(mode)) => {
                self.actor.in_mode(mode);
                self.settle()
            },
            _ => self.settle(),
        }
    }

    fn received(&mut self, now: u64, bytes: Option<Vec<u8>>) -> (r: Next)
        ensures
            turn(*final(self), r) == old(self)@.actor.received(now, packet_bytes(bytes)),
    {
        match bytes {
            None => self.hang_up(now),
            Some(bytes) => {
                if bytes.len() == 0 {
                    self.hang_up(now)
                } else {
                    self.packet(now, &bytes)
                }
            },
        }
    }

    fn hang_up(&mut self, now: u64) -> (r: Next)
        ensures
            turn(*final(self), r) == old(self)@.actor.hang_up(now),
    {
        self.actor.drop_links(now);
        match self.actor.guarded_device() {
            Some(device) => self.ask(Phase::Losing, Operation::Block { device }),
            None => self.settle(),
        }
    }

    fn tick(&mut self, now: u64) -> (r: Next)
        ensures
            turn(*final(self), r) == old(self)@.actor.tick(now),
    {
        self.actor.unconfirmed(now);
        if self.actor.overdue(now) {
            self.actor.drop_links(now);
            match self.actor.guarded_device() {
                Some(device) => self.ask(Phase::Expiring, Operation::Block { device }),
                None => self.expired(now),
            }
        } else {
            self.actor.forgotten(now);
            self.maintain(now)
        }
    }

    fn expired(&mut self, now: u64) -> (r: Next)
        ensures
            turn(*final(self), r) == old(self)@.actor.expired(now),
    {
        self.actor.error(
            "AAP did not confirm in-ear status within five seconds; remove both buds before retrying".to_owned(),
        );
        self.maintain(now)
    }

    fn shutdown(&mut self, now: u64) -> (r: Next)
        ensures
            turn(*final(self), r) == old(self)@.actor.shutdown(now),
    {
        self.actor.drop_all(now);
        match self.actor.guarded_device() {
            Some(device) => self.ask(Phase::Stopping, Operation::Block { device }),
            None => self.stopped(Ok(())),
        }
    }

    fn stopped(&mut self, result: Result<(), String>) -> (r: Next)
        ensures
            turn(*final(self), r) == old(self)@.actor.stopped(failure(result)),
    {
        self.phase = Phase::Stopped;
        Next::Stop { result }
    }

    fn initializing(&mut self, now: u64, phase: Phase, outcome: Outcome) -> (r: Next)
        ensures
            turn(*final(self), r) == (DaemonView {
                actor: old(self)@.actor,
                phase: phase@,
            }).initializing(now, outcome@),
    {
        match (phase, outcome) {
            (Phase::Opening(reason), Outcome::Done) => {
                let adapter = match &self.actor.config {
                    Some(config) => Some(config.adapter.clone()),
                    None => None,
                };
                self.ask(Phase::Finding(reason), Operation::FindAdapter { adapter })
            },
            (Phase::Opening(reason), Outcome::Failed(failure)) => self.uninitialized(
                now,
                reason,
                failure,
            ),
            (Phase::Finding(reason), Outcome::Done) => self.found(now, reason),
            (Phase::Finding(reason), Outcome::Failed(failure)) => self.uninitialized(
                now,
                reason,
                failure,
            ),
            (Phase::Protecting(reason), Outcome::Done) => self.ask(
                Phase::Listing(reason),
                Operation::ListPaired,
            ),
            (Phase::Protecting(reason), Outcome::Failed(failure)) => self.uninitialized(
                now,
                reason,
                failure,
            ),
            (Phase::Listing(reason), Outcome::Devices(devices)) => {
                self.actor.devices(devices);
                self.ask(Phase::Powering(reason), Operation::QueryPowered)
            },
            (Phase::Listing(reason), Outcome::Failed(failure)) => self.uninitialized(
                now,
                reason,
                failure,
            ),
            (Phase::Powering(reason), Outcome::Flag(true)) => self.powered(reason),
            (Phase::Powering(reason), Outcome::Flag(false)) => self.uninitialized(
                now,
                reason,
                "Bluetooth adapter is powered off".to_owned(),
            ),
            (Phase::Powering(reason), Outcome::Failed(failure)) => self.uninitialized(
                now,
                reason,
                failure,
            ),
            (Phase::Scanning(reason), Outcome::Done) => {
                self.actor.scanning();
                self.initialized(reason)
            },
            (Phase::Scanning(reason), Outcome::Failed(failure)) => self.uninitialized(
                now,
                reason,
                failure,
            ),
            (phase, _) => self.stay(phase),
        }
    }

    fn selecting(&mut self, now: u64, phase: Phase, outcome: Outcome) -> (r: Next)
        ensures
            turn(*final(self), r) == (DaemonView {
                actor: old(self)@.actor,
                phase: phase@,
            }).selecting(now, outcome@),
    {
        match (phase, outcome) {
            (_, Outcome::Failed(failure)) => self.refuse(now, failure),
            (Phase::SetupPower { address }, Outcome::Flag(true)) => self.ask(
                Phase::SetupPaired { address },
                Operation::QueryPaired { address },
            ),
            (Phase::SetupPower { .. }, Outcome::Flag(false)) => self.refuse(
                now,
                "Bluetooth adapter is powered off".to_owned(),
            ),
            (Phase::SetupPaired { address }, Outcome::Flag(true)) => self.paired(address),
            (Phase::SetupPaired { .. }, Outcome::Flag(false)) => self.refuse(
                now,
                "setup requires an already paired device".to_owned(),
            ),
            (Phase::SetupBlocked { .. }, Outcome::Flag(true)) => self.refuse(
                now,
                "selected device was already blocked; unblock it explicitly before setup".to_owned(),
            ),
            (Phase::SetupBlocked { address }, Outcome::Flag(false)) => self.ask(
                Phase::SetupAdapter { address, original_blocked: false, keys: None },
                Operation::QueryAdapterAddress,
            ),
            (
                Phase::SetupAdapter { address, original_blocked, keys },
                Outcome::Address(adapter),
            ) => self.ask(
                Phase::SetupName { address, original_blocked, keys, adapter },
                Operation::QueryName { address },
            ),
            (
                Phase::SetupName { address, original_blocked, keys, adapter },
                Outcome::Name(name),
            ) => {
                let name = match name {
                    Some(name) => name,
                    None => "AirPods".to_owned(),
                };
                let config = Config {
                    schema: 1,
                    adapter: address::write(adapter),
                    address: address::write(address),
                    name,
                    original_blocked,
                    managed: true,
                    keys,
                };
                let stored = config.clone();
                self.ask(
                    Phase::SetupSaving { address, config },
                    Operation::Save { config: stored },
                )
            },
            (phase, _) => self.stay(phase),
        }
    }

    /// An answer to something else changes nothing.
    fn stay(&mut self, phase: Phase) -> (r: Next)
        ensures
            turn(*final(self), r) == (
                DaemonView { actor: old(self)@.actor, phase: phase@ },
                NextView::Wait { reply: None },
            ),
    {
        self.phase = phase;
        Next::Wait { reply: None }
    }

    fn excepted(
        &mut self,
        now: u64,
        address: [u8; 6],
        config: Config,
        deadline: u128,
        received: ReceivedKeys,
        packet: Vec<u8>,
    ) -> (r: Next)
        ensures
            turn(*final(self), r) == old(self)@.actor.excepted(
                now,
                address@,
                config@,
                deadline as int,
                received@,
                packet@,
            ),
    {
        if packet.len() == 0 {
            return self.close(
                now,
                config,
                Err("AAP connection closed before proximity keys arrived".to_owned()),
            );
        }
        let all = gather(received, packet.as_slice());
        match (all.irk, all.enc) {
            (Some(irk), Some(enc)) => self.close(now, config, Ok(Keys { irk, enc })),
            _ => self.except(address, config, deadline, all, Exception::Receive),
        }
    }

    fn taking_over(&mut self, now: u64, phase: Phase, outcome: Outcome) -> (r: Next)
        ensures
            turn(*final(self), r) == (DaemonView {
                actor: old(self)@.actor,
                phase: phase@,
            }).taking_over(now, outcome@),
    {
        match (phase, outcome) {
            (Phase::SetupSaving { address, config }, Outcome::Done) => self.owned(
                now,
                address,
                config,
            ),
            (Phase::SetupSaving { .. }, Outcome::Failed(failure)) => self.refuse(now, failure),
            (Phase::SetupGuarding { address, config }, Outcome::Done) => self.announce(
                address,
                config,
            ),
            (Phase::SetupGuarding { .. }, Outcome::Failed(failure)) => self.refuse(now, failure),
            (Phase::SetupAnnouncing { address, config }, Outcome::Done) => self.except(
                address,
                config,
                now as u128 + SETUP as u128,
                ReceivedKeys { irk: None, enc: None },
                Exception::Unblock,
            ),
            (
                Phase::Excepted { address, config, deadline, received, step },
                Outcome::Done,
            ) => {
                let next = match step {
                    Exception::Unblock => Exception::Connect,
                    Exception::Connect => Exception::Attach,
                    Exception::Attach => Exception::RequestKeys,
                    Exception::RequestKeys => Exception::Receive,
                    Exception::Receive => Exception::Receive,
                };
                self.except(address, config, deadline, received, next)
            },
            (
                Phase::Excepted { address, config, deadline, received, step: _ },
                Outcome::Received(packet),
            ) => self.excepted(now, address, config, deadline, received, packet),
            (Phase::Excepted { config, .. }, Outcome::Failed(failure)) => self.close(
                now,
                config,
                Err(failure),
            ),
            (Phase::Closing { config, result }, Outcome::Done) => self.closed(
                now,
                config,
                result,
                Ok(()),
            ),
            (Phase::Closing { config, result }, Outcome::Failed(failure)) => self.closed(
                now,
                config,
                result,
                Err(failure),
            ),
            (Phase::StoringKeys { config, guard }, Outcome::Done) => self.keyed(
                now,
                config,
                guard,
            ),
            (Phase::StoringKeys { .. }, Outcome::Failed(failure)) => self.refuse(now, failure),
            (Phase::SetupScanning, Outcome::Done) => {
                self.actor.scanning();
                self.publish(Some(Ok(())))
            },
            (Phase::SetupScanning, Outcome::Failed(failure)) => self.refuse(now, failure),
            (phase, _) => self.stay(phase),
        }
    }

    fn releasing(&mut self, now: u64, phase: Phase, outcome: Outcome) -> (r: Next)
        ensures
            turn(*final(self), r) == (DaemonView {
                actor: old(self)@.actor,
                phase: phase@,
            }).releasing(now, outcome@),
    {
        match (phase, outcome) {
            (Phase::Releasing, Outcome::Done) => self.restore(now),
            (Phase::Releasing, Outcome::Failed(failure)) => self.refuse(now, failure),
            (Phase::Restoring { address, config }, Outcome::Done) => {
                let mut given_up = config;
                given_up.managed = false;
                let stored = given_up.clone();
                self.ask(
                    Phase::Relinquishing { address, config: given_up },
                    Operation::Save { config: stored },
                )
            },
            (Phase::Restoring { .. }, Outcome::Failed(failure)) => self.refuse(now, failure),
            (Phase::Relinquishing { config, .. }, Outcome::Done) => self.released(now, config),
            (Phase::Relinquishing { address, .. }, Outcome::Failed(reason)) => self.ask(
                Phase::Reblocking { address, reason },
                Operation::SetBlocked { address, blocked: true },
            ),
            (Phase::Reblocking { reason, .. }, Outcome::Done) => self.refuse(now, reason),
            (Phase::Reblocking { .. }, Outcome::Failed(failure)) => {
                let reason = text::join(
                    "release save failed and guard could not be restored: ",
                    failure.as_str(),
                );
                self.refuse(now, reason)
            },
            (phase, _) => self.stay(phase),
        }
    }

    fn serving(&mut self, now: u64, phase: Phase, outcome: Outcome) -> (r: Next)
        ensures
            turn(*final(self), r) == (DaemonView {
                actor: old(self)@.actor,
                phase: phase@,
            }).serving(now, outcome@),
    {
        match (phase, outcome) {
            (Phase::Offline { reason, after }, Outcome::Done) => self.gone(
                now,
                reason,
                Ok(()),
                after,
            ),
            (Phase::Offline { reason, after }, Outcome::Failed(failure)) => self.gone(
                now,
                reason,
                Err(failure),
                after,
            ),
            (Phase::Sending { mode }, Outcome::Done) => self.sent(now, mode),
            (Phase::Sending { .. }, Outcome::Failed(failure)) => self.complain(failure),
            (Phase::Unblocking { config, .. }, Outcome::Done) => self.connect(config),
            (Phase::Unblocking { .. }, Outcome::Failed(failure)) => self.lose(now, failure),
            (Phase::Connecting, Outcome::Done) => self.settle(),
            (Phase::Guarding { ears }, Outcome::Done) => self.show(ears),
            (Phase::Guarding { .. }, Outcome::Failed(failure)) => self.lose(now, failure),
            (Phase::Announcing, Outcome::Done) => self.announced(),
            (Phase::Preferring, Outcome::Done) => self.settle(),
            (Phase::Losing, Outcome::Done) => self.settle(),
            (Phase::Losing, Outcome::Failed(failure)) => {
                let reason = text::join("AAP link lost; guard failed: ", failure.as_str());
                self.lose(now, reason)
            },
            (Phase::Expiring, Outcome::Done) => self.expired(now),
            (Phase::Expiring, Outcome::Failed(failure)) => {
                let reason = text::join(
                    "AAP confirmation timed out; guard failed: ",
                    failure.as_str(),
                );
                self.offline(now, reason, After::Maintain)
            },
            (Phase::TickPower, Outcome::Flag(true)) => self.ask(
                Phase::TickPaired,
                Operation::ListPaired,
            ),
            (Phase::TickPower, Outcome::Flag(false)) => self.lose(
                now,
                "Bluetooth adapter is powered off".to_owned(),
            ),
            (Phase::TickPower, Outcome::Failed(failure)) => self.lose(now, failure),
            (Phase::TickPaired, Outcome::Devices(devices)) => {
                self.actor.devices(devices);
                self.settle()
            },
            (Phase::TickPaired, Outcome::Failed(failure)) => self.lose(now, failure),
            (Phase::Publishing { reply }, Outcome::Done) => {
                self.actor.started(now);
                self.phase = Phase::Idle;
                Next::Wait { reply }
            },
            (Phase::Stopping, Outcome::Done) => self.stopped(Ok(())),
            (Phase::Stopping, Outcome::Failed(failure)) => self.stopped(Err(failure)),
            (phase, _) => self.stay(phase),
        }
    }

    /// Starts the daemon with what was stored.
    pub fn start(config: Option<Config>, now: u64) -> (r: (Daemon, Next))
        ensures
            turn(r.0, r.1) == crate::policy::started(config.deep_view(), now),
    {
        let mut snapshot = Snapshot::default();
        if let Some(config) = &config {
            snapshot.name = config.name.clone();
        }
        let mut actor = Actor {
            config,
            session: false,
            adapter: false,
            scan: false,
            connection: false,
            socket: false,
            audio: false,
            generation: 0,
            cutoff: now,
            last_ble: None,
            ear_deadline: None,
            live_ears: false,
            require_removal: false,
            primary_left: None,
            aap_ears: [None, None],
            pending_mode: None,
            maintenance: None,
            snapshot,
        };
        actor.reset_state(now);
        let mut daemon = Daemon { actor, phase: Phase::Idle };
        let next = daemon.initialize(Reason::Start);
        (daemon, next)
    }

    /// Takes up something that happened while the daemon waited.
    pub fn begin(&mut self, now: u64, trigger: Trigger) -> (r: Next)
        ensures
            turn(*final(self), r) == old(self)@.begin(now, trigger@),
    {
        match trigger {
            Trigger::Command(Command::Setup(address)) => self.setup(now, address),
            Trigger::Command(Command::Mode(mode)) => self.ask_mode(mode),
            Trigger::Command(Command::Release) => self.release(now),
            Trigger::Event(event) => self.event(now, event),
            Trigger::Received(bytes) => self.received(now, bytes),
            Trigger::Tick => self.tick(now),
            Trigger::Shutdown => self.shutdown(now),
        }
    }

    /// Goes on with the answer to what was asked for.
    pub fn resume(&mut self, now: u64, outcome: Outcome) -> (r: Next)
        ensures
            turn(*final(self), r) == old(self)@.resume(now, outcome@),
    {
        let mut phase = Phase::Idle;
        std::mem::swap(&mut phase, &mut self.phase);
        match phase {
            Phase::Idle | Phase::Stopped => self.stay(phase),
            Phase::Opening(_) | Phase::Finding(_) | Phase::Protecting(_) | Phase::Listing(_)
            | Phase::Powering(_) | Phase::Scanning(_) => self.initializing(now, phase, outcome),
            Phase::SetupPower { .. } | Phase::SetupPaired { .. } | Phase::SetupBlocked { .. }
            | Phase::SetupAdapter { .. } | Phase::SetupName { .. } => self.selecting(
                now,
                phase,
                outcome,
            ),
            Phase::SetupSaving { .. } | Phase::SetupGuarding { .. }
            | Phase::SetupAnnouncing { .. } | Phase::Excepted { .. } | Phase::Closing { .. }
            | Phase::StoringKeys { .. } | Phase::SetupScanning => self.taking_over(
                now,
                phase,
                outcome,
            ),
            Phase::Releasing | Phase::Restoring { .. } | Phase::Relinquishing { .. }
            | Phase::Reblocking { .. } => self.releasing(now, phase, outcome),
            _ => self.serving(now, phase, outcome),
        }
    }
}

/// Puts the keys of a packet with those that have arrived before.
fn gather(received: ReceivedKeys, packet: &[u8]) -> (r: ReceivedKeys)
    ensures
        r@ == gathered(received@, packet@),
{
    match protocol::parse(packet) {
        Some(Packet::Keys(keys)) => ReceivedKeys {
            irk: match keys.irk {
                Some(key) => Some(key),
                None => received.irk,
            },
            enc: match keys.enc {
                Some(key) => Some(key),
                None => received.enc,
            },
        },
        _ => received,
    }
}

} // verus!
