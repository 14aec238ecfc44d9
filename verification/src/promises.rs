//! What the daemon promises of whole runs and of single turns.
use crate::address;
use crate::bluetooth::EventView;
use crate::guarantees::{
    every_answer_keeps_the_state_sound, every_trigger_keeps_the_state_sound, storable,
    the_start_is_sound,
};
use crate::model::{worn, Ears};
use crate::policy::{
    sided, started, ActorView, AfterView, CommandView, DaemonView, Exception, NextView,
    OperationView, OutcomeView, PhaseView, ReasonView, TriggerView, TurnView, SETUP,
};
use crate::protocol::{self, PacketView};
use crate::storage::ConfigView;
use vstd::prelude::*;

verus! {

/// What reaches the daemon: something that happens, or an answer.
pub enum InputView {
    Trigger(TriggerView),
    Answer(OutcomeView),
}

impl DaemonView {
    /// An input that can reach the daemon now.
    pub open spec fn admits(self, input: InputView) -> bool {
        match input {
            InputView::Trigger(trigger) => self.possible(trigger),
            InputView::Answer(outcome) => self.expects(outcome),
        }
    }

    /// How the daemon takes an input.
    #[verifier::opaque]
    pub open spec fn takes(self, now: u64, input: InputView) -> TurnView {
        match input {
            InputView::Trigger(trigger) => self.begin(now, trigger),
            InputView::Answer(outcome) => self.resume(now, outcome),
        }
    }

    /// The configuration that an input shows to be stored now.
    pub open spec fn stores(self, input: InputView) -> Option<ConfigView> {
        match (self.asked(), input) {
            (
                Some(OperationView::Save { config }),
                InputView::Answer(OutcomeView::Done),
            ) => Some(config),
            _ => None,
        }
    }
}

/// The daemon and the configuration that was last seen to be stored.
pub struct HistoryView {
    pub daemon: DaemonView,
    pub stored: Option<ConfigView>,
}

/// Where a start with `config` leads when `inputs` follow.
pub open spec fn reached(
    config: Option<ConfigView>,
    start: u64,
    inputs: Seq<(u64, InputView)>,
) -> HistoryView
    decreases inputs.len(),
{
    if inputs.len() == 0 {
        HistoryView { daemon: started(config, start).0, stored: config }
    } else {
        let before = reached(config, start, inputs.drop_last());
        let (now, input) = inputs.last();
        HistoryView {
            daemon: before.daemon.takes(now, input).0,
            stored: match before.daemon.stores(input) {
                Some(config) => Some(config),
                None => before.stored,
            },
        }
    }
}

/// Every input could reach the daemon when it did.
pub open spec fn admitted(
    config: Option<ConfigView>,
    start: u64,
    inputs: Seq<(u64, InputView)>,
) -> bool
    decreases inputs.len(),
{
    inputs.len() > 0 ==> {
        &&& admitted(config, start, inputs.drop_last())
        &&& reached(config, start, inputs.drop_last()).daemon.admits(inputs.last().1)
    }
}

/// What every turn does to a state: the configuration stays, nothing new is shown
/// as connected, a mode that is shown stays or is forgotten, and where a link ends
/// the device is blocked at once.
pub open spec fn careful(before: ActorView, turn: TurnView) -> bool {
    let after = turn.0.actor;
    &&& after.config == before.config
    &&& after.live_ears ==> before.live_ears
    &&& after.snapshot.mode == before.snapshot.mode || after.snapshot.mode is None
    &&& (before.linked() && !after.linked()) ==> (before.guarded_device() matches Some(
        device,
    ) ==> turn.1 == NextView::Perform(OperationView::Block { device }))
}

/// A device that was linked is blocked as soon as no link is left.
proof fn dropping_is_careful(
    before: ActorView,
    actor: ActorView,
    now: u64,
    reason: Seq<char>,
    after: AfterView,
    ears: Option<Ears>,
)
    requires
        actor.config == before.config,
        actor.adapter == before.adapter,
    ensures
        careful(before, actor.offline(now, reason, after)),
        careful(before, actor.guard(now, ears)),
        careful(before, actor.hang_up(now)),
        careful(before, actor.shutdown(now)),
{
}

proof fn maintaining_is_careful(before: ActorView, actor: ActorView, now: u64)
    requires
        actor.config == before.config,
        actor.live_ears == before.live_ears,
        actor.snapshot.mode == before.snapshot.mode,
        actor.linked() == before.linked(),
    ensures
        careful(before, actor.maintain(now)),
{
}

proof fn commands_are_careful(actor: ActorView, now: u64, command: CommandView)
    requires
        actor.coherent(),
    ensures
        careful(actor, DaemonView { actor, phase: PhaseView::Idle }.begin(
            now,
            TriggerView::Command(command),
        )),
{
    match command {
        CommandView::Setup(text) => {
            let reason = match address::parsed(text) {
                Err(message) => "invalid Bluetooth address: "@ + message,
                Ok(_) => "release the managed device before selecting another"@,
            };
            dropping_is_careful(actor, actor, now, reason, AfterView::Reply(reason), None);
        },
        CommandView::Mode(_) => {},
        CommandView::Release => {},
    }
}

proof fn advertisements_are_careful(
    actor: ActorView,
    now: u64,
    data: Seq<u8>,
    at: u64,
    fresh: bool,
)
    requires
        actor.coherent(),
    ensures
        careful(actor, actor.advertised(now, data, at, fresh)),
{
    dropping_is_careful(actor, actor, now, Seq::empty(), AfterView::Publish, None);
    if let Some(enc) = actor.reading_key() {
        if let Some(seen) = protocol::advertised_to(data, enc) {
            let noted = ActorView { last_ble: Some(at), ..actor.shown(seen) };
            dropping_is_careful(
                actor,
                noted.taken_out(seen.ears),
                now,
                Seq::empty(),
                AfterView::Publish,
                Some(seen.ears),
            );
            if worn(seen.ears) && !actor.linked() && !actor.live_ears {
                attempts_are_careful(actor, noted, now);
            }
        }
    }
}

proof fn attempts_are_careful(before: ActorView, actor: ActorView, now: u64)
    requires
        actor.config == before.config,
        actor.adapter == before.adapter,
        actor.live_ears == before.live_ears,
        actor.snapshot.mode == before.snapshot.mode,
        !before.linked(),
        !actor.linked(),
    ensures
        careful(before, actor.attempt(now)),
{
}

proof fn readiness_is_careful(
    actor: ActorView,
    now: u64,
    generation: u64,
    failure: Option<Seq<char>>,
)
    requires
        actor.coherent(),
        generation == actor.generation ==> actor.connection,
    ensures
        careful(actor, actor.ready(now, generation, failure)),
{
    let over = ActorView { connection: false, ..actor };
    let reason = match failure {
        Some(message) => message,
        None => Seq::empty(),
    };
    dropping_is_careful(actor, over, now, reason, AfterView::Publish, None);
}

/// Bytes with which the device confirms that it is worn, or reports its mode.
pub open spec fn confirms(bytes: Option<Seq<u8>>) -> bool {
    match bytes {
        Some(bytes) => match protocol::parsed(bytes) {
            Some(PacketView::Ear(ears)) => worn(ears),
            Some(PacketView::Mode(_)) => true,
            _ => false,
        },
        None => false,
    }
}

proof fn packets_are_careful(actor: ActorView, now: u64, bytes: Option<Seq<u8>>)
    requires
        !confirms(bytes),
    ensures
        careful(actor, actor.received(now, bytes)),
{
    dropping_is_careful(actor, actor, now, Seq::empty(), AfterView::Publish, None);
    if let Some(bytes) = bytes {
        if let Some(PacketView::Ear(ears)) = protocol::parsed(bytes) {
            let told = ActorView { aap_ears: ears, ..actor };
            dropping_is_careful(
                actor,
                told.taken_out(ears),
                now,
                Seq::empty(),
                AfterView::Publish,
                Some(sided(actor.primary_left, ears)),
            );
        }
    }
}

proof fn ticks_are_careful(actor: ActorView, now: u64)
    ensures
        careful(actor, actor.tick(now)),
{
    let told = actor.unconfirmed(now);
    maintaining_is_careful(actor, told.forgotten(now), now);
    if told.guarded(now).guarded_device() is None {
        let failed = told.guarded(now).failed(
            "AAP did not confirm in-ear status within five seconds; remove both buds before retrying"@,
        );
        assert(failed.maintain(now).0.actor.config == actor.config);
        assert(failed.maintain(now).0.actor.snapshot.mode is None);
    }
}

/// Nothing that happens changes the configuration. Only the device's own report
/// that it is worn makes it be shown as connected, and only its own report of a
/// mode makes that mode be shown. Where a link ends the device is blocked at once.
pub proof fn triggers_are_careful(daemon: DaemonView, now: u64, trigger: TriggerView)
    requires
        daemon.sound(),
        daemon.possible(trigger),
    ensures
        match trigger {
            TriggerView::Received(bytes) => confirms(bytes) || careful(
                daemon.actor,
                daemon.begin(now, trigger),
            ),
            _ => careful(daemon.actor, daemon.begin(now, trigger)),
        },
        trigger matches TriggerView::Received(Some(bytes)) ==> match protocol::parsed(bytes) {
            Some(PacketView::Mode(mode)) => daemon.begin(now, trigger) == daemon.actor.in_mode(
                mode,
            ).settle(),
            Some(PacketView::Ear(ears)) => worn(ears) ==> daemon.begin(now, trigger).0.actor
                == ActorView { aap_ears: ears, ..daemon.actor }.live(
                sided(daemon.actor.primary_left, ears),
            ),
            _ => true,
        },
        daemon.begin(now, trigger).0.actor.config == daemon.actor.config,
{
    let actor = daemon.actor;
    match trigger {
        TriggerView::Command(command) => commands_are_careful(actor, now, command),
        TriggerView::Event(EventView::Advertisement { data, at, fresh }) => {
            advertisements_are_careful(actor, now, data, at, fresh);
        },
        TriggerView::Event(EventView::Ready { generation, failure }) => {
            readiness_is_careful(actor, now, generation, failure);
        },
        TriggerView::Event(EventView::Failure(message)) => {
            dropping_is_careful(actor, actor, now, message, AfterView::Publish, None);
        },
        TriggerView::Event(_) => {
            dropping_is_careful(actor, actor, now, Seq::empty(), AfterView::Publish, None);
        },
        TriggerView::Received(bytes) => {
            if !confirms(bytes) {
                packets_are_careful(actor, now, bytes);
            }
        },
        TriggerView::Tick => ticks_are_careful(actor, now),
        TriggerView::Shutdown => {
            dropping_is_careful(actor, actor, now, Seq::empty(), AfterView::Publish, None);
        },
    }
}

/// What an answer does to a state.
pub open spec fn careful_answer(
    daemon: DaemonView,
    outcome: OutcomeView,
    turn: TurnView,
) -> bool {
    let (left, next) = turn;
    &&& left.actor.config == match daemon.stores(InputView::Answer(outcome)) {
        Some(config) => Some(config),
        None => daemon.actor.config,
    }
    &&& left.actor.live_ears ==> daemon.actor.live_ears
    &&& left.actor.snapshot.mode == daemon.actor.snapshot.mode || left.actor.snapshot.mode is None
    &&& (daemon.actor.linked() && !left.actor.linked()) ==> (
    left.actor.guarded_device() matches Some(device) && next == NextView::Perform(
        OperationView::Block { device },
    ))
}

/// Going offline keeps the configuration and blocks a device under control.
proof fn offline_is_careful(actor: ActorView, now: u64, reason: Seq<char>, after: AfterView)
    ensures
        ({
            let (left, next) = actor.offline(now, reason, after);
            &&& left.actor.config == actor.config
            &&& !left.actor.live_ears
            &&& left.actor.snapshot.mode is None
            &&& actor.guarded_device() matches Some(device) ==> left.actor.guarded_device() == Some(
                device,
            ) && next == NextView::Perform(OperationView::Block { device })
        }),
{
}

proof fn initializing_is_careful(daemon: DaemonView, now: u64, outcome: OutcomeView)
    requires
        daemon.sound(),
        daemon.expects(outcome),
        daemon.phase is Opening || daemon.phase is Finding || daemon.phase is Protecting
            || daemon.phase is Listing || daemon.phase is Powering || daemon.phase is Scanning,
    ensures
        careful_answer(daemon, outcome, daemon.initializing(now, outcome)),
{
    let actor = daemon.actor;
    let failure = match outcome {
        OutcomeView::Failed(failure) => failure,
        _ => "Bluetooth adapter is powered off"@,
    };
    offline_is_careful(actor, now, failure, AfterView::Reply(failure));
    offline_is_careful(actor, now, failure, AfterView::Publish);
}

proof fn selecting_is_careful(daemon: DaemonView, now: u64, outcome: OutcomeView)
    requires
        daemon.sound(),
        daemon.expects(outcome),
        daemon.phase is SetupPower || daemon.phase is SetupPaired || daemon.phase is SetupBlocked
            || daemon.phase is SetupAdapter || daemon.phase is SetupName,
    ensures
        careful_answer(daemon, outcome, daemon.selecting(now, outcome)),
{
    let failure = match (daemon.phase, outcome) {
        (_, OutcomeView::Failed(failure)) => failure,
        (PhaseView::SetupPower { .. }, _) => "Bluetooth adapter is powered off"@,
        (PhaseView::SetupPaired { .. }, _) => "setup requires an already paired device"@,
        _ => "selected device was already blocked; unblock it explicitly before setup"@,
    };
    offline_is_careful(daemon.actor, now, failure, AfterView::Reply(failure));
}

proof fn taking_over_is_careful(daemon: DaemonView, now: u64, outcome: OutcomeView)
    requires
        daemon.sound(),
        daemon.expects(outcome),
        daemon.phase is SetupSaving || daemon.phase is SetupGuarding || daemon.phase
            is SetupAnnouncing || daemon.phase is Excepted || daemon.phase is Closing
            || daemon.phase is StoringKeys || daemon.phase is SetupScanning,
    ensures
        careful_answer(daemon, outcome, daemon.taking_over(now, outcome)),
{
    if let OutcomeView::Failed(failure) = outcome {
        offline_is_careful(daemon.actor, now, failure, AfterView::Reply(failure));
    }
}

proof fn giving_up_is_careful(daemon: DaemonView, now: u64, outcome: OutcomeView)
    requires
        daemon.sound(),
        daemon.expects(outcome),
        daemon.phase is Releasing || daemon.phase is Restoring || daemon.phase is Relinquishing
            || daemon.phase is Reblocking,
    ensures
        careful_answer(daemon, outcome, daemon.releasing(now, outcome)),
{
    if let OutcomeView::Failed(failure) = outcome {
        offline_is_careful(daemon.actor, now, failure, AfterView::Reply(failure));
    }
}

proof fn serving_is_careful(daemon: DaemonView, now: u64, outcome: OutcomeView)
    requires
        daemon.sound(),
        daemon.expects(outcome),
        daemon.phase is Offline || daemon.phase is Sending || daemon.phase is Unblocking
            || daemon.phase is Connecting || daemon.phase is Guarding || daemon.phase is Announcing
            || daemon.phase is Preferring || daemon.phase is Losing || daemon.phase is Expiring
            || daemon.phase is TickPower || daemon.phase is TickPaired || daemon.phase
            is Publishing || daemon.phase is Stopping,
    ensures
        careful_answer(daemon, outcome, daemon.serving(now, outcome)),
{
    let actor = daemon.actor;
    match (daemon.phase, outcome) {
        (PhaseView::Losing, OutcomeView::Failed(failure)) => {
            offline_is_careful(
                actor,
                now,
                "AAP link lost; guard failed: "@ + failure,
                AfterView::Publish,
            );
        },
        (PhaseView::Expiring, OutcomeView::Failed(failure)) => {
            offline_is_careful(
                actor,
                now,
                "AAP confirmation timed out; guard failed: "@ + failure,
                AfterView::Maintain,
            );
        },
        (PhaseView::TickPower, OutcomeView::Flag(false)) => {
            offline_is_careful(actor, now, "Bluetooth adapter is powered off"@, AfterView::Publish);
        },
        (_, OutcomeView::Failed(failure)) => {
            offline_is_careful(actor, now, failure, AfterView::Publish);
        },
        _ => {},
    }
}

/// An answer changes the configuration exactly when it says that one was stored;
/// no answer makes a mode be shown; and where a link ends the device is blocked at
/// once.
pub proof fn answers_are_careful(daemon: DaemonView, now: u64, outcome: OutcomeView)
    requires
        daemon.sound(),
        daemon.expects(outcome),
    ensures
        careful_answer(daemon, outcome, daemon.resume(now, outcome)),
{
    match daemon.phase {
        PhaseView::Idle | PhaseView::Stopped => {},
        PhaseView::Opening(_) | PhaseView::Finding(_) | PhaseView::Protecting(_)
        | PhaseView::Listing(_) | PhaseView::Powering(_) | PhaseView::Scanning(_) => {
            initializing_is_careful(daemon, now, outcome);
        },
        PhaseView::SetupPower { .. } | PhaseView::SetupPaired { .. }
        | PhaseView::SetupBlocked { .. } | PhaseView::SetupAdapter { .. }
        | PhaseView::SetupName { .. } => selecting_is_careful(daemon, now, outcome),
        PhaseView::SetupSaving { .. } | PhaseView::SetupGuarding { .. }
        | PhaseView::SetupAnnouncing { .. } | PhaseView::Excepted { .. }
        | PhaseView::Closing { .. } | PhaseView::StoringKeys { .. } | PhaseView::SetupScanning => {
            taking_over_is_careful(daemon, now, outcome);
        },
        PhaseView::Releasing | PhaseView::Restoring { .. } | PhaseView::Relinquishing { .. }
        | PhaseView::Reblocking { .. } => giving_up_is_careful(daemon, now, outcome),
        _ => serving_is_careful(daemon, now, outcome),
    }
}

/// However a run goes, the state is sound, and the configuration that the daemon
/// follows is the one that is stored.
pub proof fn every_run_stays_sound(
    config: Option<ConfigView>,
    start: u64,
    inputs: Seq<(u64, InputView)>,
)
    requires
        config matches Some(config) ==> storable(config),
        admitted(config, start, inputs),
    ensures
        reached(config, start, inputs).daemon.sound(),
        reached(config, start, inputs).stored == reached(config, start, inputs).daemon.actor.config,
    decreases inputs.len(),
{
    if inputs.len() == 0 {
        the_start_is_sound(config, start);
    } else {
        every_run_stays_sound(config, start, inputs.drop_last());
        let before = reached(config, start, inputs.drop_last()).daemon;
        let (now, input) = inputs.last();
        reveal(DaemonView::takes);
        match input {
            InputView::Trigger(trigger) => {
                every_trigger_keeps_the_state_sound(before, now, trigger);
                triggers_are_careful(before, now, trigger);
            },
            InputView::Answer(outcome) => {
                every_answer_keeps_the_state_sound(before, now, outcome);
                answers_are_careful(before, now, outcome);
            },
        }
    }
}

impl HistoryView {
    /// What the daemon has asked for may be done with what is stored: a device that
    /// is to be unblocked, or that a step of the setup exception is for, is stored
    /// as one under control; and what is to be stored can be read back.
    pub open spec fn covered(self) -> bool {
        match self.daemon.asked() {
            Some(OperationView::Except { address, .. }) => self.stored matches Some(stored)
                && stored.managed && stored.address == address::written(address),
            Some(
                OperationView::SetBlocked { address, blocked: false },
            ) => self.stored matches Some(stored) && stored.managed && address::parsed(
                stored.address,
            ) == Ok::<Seq<u8>, Seq<char>>(address),
            Some(OperationView::Save { config }) => storable(config),
            _ => true,
        }
    }
}

proof fn sound_histories_are_covered(history: HistoryView)
    requires
        history.daemon.sound(),
        history.stored == history.daemon.actor.config,
    ensures
        history.covered(),
        history.stored matches Some(config) ==> storable(config),
{
}

/// Ownership is stored before anything is unblocked: whenever the daemon asks to
/// unblock a device, or takes a step of the setup exception, the configuration
/// that was last seen to be stored says that this device is under control, so that
/// what was begun can be ended even after a crash. And what the daemon stores can
/// be read back.
pub proof fn ownership_is_stored_before_unblocking(
    config: Option<ConfigView>,
    start: u64,
    inputs: Seq<(u64, InputView)>,
)
    requires
        config matches Some(config) ==> storable(config),
        admitted(config, start, inputs),
    ensures
        reached(config, start, inputs).covered(),
        reached(config, start, inputs).stored matches Some(config) ==> storable(config),
{
    every_run_stays_sound(config, start, inputs);
    sound_histories_are_covered(reached(config, start, inputs));
}

impl PhaseView {
    /// A request is being worked on and its answer is owed.
    pub open spec fn owes(self) -> bool {
        match self {
            PhaseView::Opening(reason) | PhaseView::Finding(reason) | PhaseView::Protecting(reason)
            | PhaseView::Listing(reason) | PhaseView::Powering(reason)
            | PhaseView::Scanning(reason) => reason is Setup,
            PhaseView::Offline { after, .. } => after is Reply,
            PhaseView::SetupPower { .. } | PhaseView::SetupPaired { .. }
            | PhaseView::SetupBlocked { .. } | PhaseView::SetupAdapter { .. }
            | PhaseView::SetupName { .. } | PhaseView::SetupSaving { .. }
            | PhaseView::SetupGuarding { .. } | PhaseView::SetupAnnouncing { .. }
            | PhaseView::Excepted { .. } | PhaseView::Closing { .. }
            | PhaseView::StoringKeys { .. } | PhaseView::SetupScanning | PhaseView::Releasing
            | PhaseView::Restoring { .. } | PhaseView::Relinquishing { .. }
            | PhaseView::Reblocking { .. } | PhaseView::Sending { .. } => true,
            PhaseView::Publishing { reply } => reply is Some,
            _ => false,
        }
    }

    /// How many answers there are at most until the daemon waits again, not
    /// counting packets that bring no keys.
    pub open spec fn distance(self) -> int {
        match self {
            PhaseView::Idle | PhaseView::Stopped => 0,
            PhaseView::Publishing { .. } | PhaseView::Stopping => 1,
            PhaseView::Offline { after: AfterView::Maintain, .. } => 9,
            PhaseView::Offline { .. } | PhaseView::Sending { .. } | PhaseView::Connecting
            | PhaseView::Preferring => 2,
            PhaseView::Guarding { .. } | PhaseView::Losing | PhaseView::Announcing
            | PhaseView::Unblocking { .. } | PhaseView::TickPaired | PhaseView::SetupScanning
            | PhaseView::Reblocking { .. } => 3,
            PhaseView::TickPower | PhaseView::StoringKeys { .. }
            | PhaseView::Relinquishing { .. } => 4,
            PhaseView::Closing { .. } | PhaseView::Restoring { .. } => 5,
            PhaseView::Releasing => 6,
            PhaseView::Expiring => 10,
            PhaseView::Excepted { step, .. } => match step {
                Exception::Receive => 6,
                Exception::RequestKeys => 7,
                Exception::Attach => 8,
                Exception::Connect => 9,
                Exception::Unblock => 10,
            },
            PhaseView::SetupAnnouncing { .. } => 11,
            PhaseView::SetupGuarding { .. } => 12,
            PhaseView::SetupSaving { .. } => 13,
            PhaseView::SetupName { .. } => 14,
            PhaseView::SetupAdapter { .. } => 15,
            PhaseView::SetupBlocked { .. } => 16,
            PhaseView::SetupPaired { .. } => 17,
            PhaseView::SetupPower { .. } => 18,
            PhaseView::Scanning(reason) => 3 + reason.distance(),
            PhaseView::Powering(reason) => 4 + reason.distance(),
            PhaseView::Listing(reason) => 5 + reason.distance(),
            PhaseView::Protecting(reason) => 6 + reason.distance(),
            PhaseView::Finding(reason) => 7 + reason.distance(),
            PhaseView::Opening(reason) => 8 + reason.distance(),
        }
    }
}

impl ReasonView {
    /// What setup still needs after the adapter is initialized.
    pub open spec fn distance(self) -> int {
        if self is Setup {
            16
        } else {
            0
        }
    }
}

/// The order in which the daemon goes on.
pub open spec fn orderly(
    daemon: DaemonView,
    now: u64,
    outcome: OutcomeView,
    turn: TurnView,
) -> bool {
    let (left, next) = turn;
    &&& match next {
        NextView::Perform(_) => left.phase.owes() == daemon.phase.owes() && (
        left.phase.distance() < daemon.phase.distance() || outcome is Received),
        NextView::Wait { reply } => reply is Some == daemon.phase.owes(),
        NextView::Stop { .. } => !daemon.phase.owes(),
    }
    &&& match left.phase {
        PhaseView::Listing(_) => outcome is Done && (daemon.phase is Protecting || (daemon.phase
            is Finding && !(daemon.actor.config matches Some(config) && config.managed))),
        PhaseView::Powering(_) => daemon.phase is Listing,
        PhaseView::Scanning(_) => daemon.phase is Powering,
        PhaseView::Excepted { address, config, deadline, step, .. } => match daemon.phase {
            PhaseView::SetupAnnouncing { address: a, config: c } => (a, c) == (address, config)
                && deadline == now + SETUP && step == Exception::Unblock,
            PhaseView::Excepted { address: a, config: c, deadline: d, .. } => (a, c, d) == (
                address,
                config,
                deadline,
            ),
            _ => false,
        },
        PhaseView::Relinquishing { address, config } => outcome is Done && (
        daemon.phase matches PhaseView::Restoring { address: a, config: c } && a == address && config
            == (ConfigView { managed: false, ..c })),
        PhaseView::Unblocking { .. } => false,
        PhaseView::Connecting => daemon.phase is Unblocking && outcome is Done,
        _ => true,
    }
    &&& (daemon.actor.require_removal && !left.actor.require_removal) ==> outcome is Done && (
    daemon.phase is StoringKeys || daemon.phase is Relinquishing)
}

proof fn initializing_is_orderly(daemon: DaemonView, now: u64, outcome: OutcomeView)
    requires
        daemon.sound(),
        daemon.expects(outcome),
        daemon.phase is Opening || daemon.phase is Finding || daemon.phase is Protecting
            || daemon.phase is Listing || daemon.phase is Powering || daemon.phase is Scanning,
    ensures
        orderly(daemon, now, outcome, daemon.initializing(now, outcome)),
{
}

proof fn selecting_is_orderly(daemon: DaemonView, now: u64, outcome: OutcomeView)
    requires
        daemon.sound(),
        daemon.expects(outcome),
        daemon.phase is SetupPower || daemon.phase is SetupPaired || daemon.phase is SetupBlocked
            || daemon.phase is SetupAdapter || daemon.phase is SetupName,
    ensures
        orderly(daemon, now, outcome, daemon.selecting(now, outcome)),
{
}

proof fn taking_over_is_orderly(daemon: DaemonView, now: u64, outcome: OutcomeView)
    requires
        daemon.sound(),
        daemon.expects(outcome),
        daemon.phase is SetupSaving || daemon.phase is SetupGuarding || daemon.phase
            is SetupAnnouncing || daemon.phase is Excepted || daemon.phase is Closing
            || daemon.phase is StoringKeys || daemon.phase is SetupScanning,
    ensures
        orderly(daemon, now, outcome, daemon.taking_over(now, outcome)),
{
}

proof fn giving_up_is_orderly(daemon: DaemonView, now: u64, outcome: OutcomeView)
    requires
        daemon.sound(),
        daemon.expects(outcome),
        daemon.phase is Releasing || daemon.phase is Restoring || daemon.phase is Relinquishing
            || daemon.phase is Reblocking,
    ensures
        orderly(daemon, now, outcome, daemon.releasing(now, outcome)),
{
}

proof fn serving_is_orderly(daemon: DaemonView, now: u64, outcome: OutcomeView)
    requires
        daemon.sound(),
        daemon.expects(outcome),
        daemon.phase is Offline || daemon.phase is Sending || daemon.phase is Unblocking
            || daemon.phase is Connecting || daemon.phase is Guarding || daemon.phase is Announcing
            || daemon.phase is Preferring || daemon.phase is Losing || daemon.phase is Expiring
            || daemon.phase is TickPower || daemon.phase is TickPaired || daemon.phase
            is Publishing || daemon.phase is Stopping,
    ensures
        orderly(daemon, now, outcome, daemon.serving(now, outcome)),
{
}

proof fn answers_are_orderly(daemon: DaemonView, now: u64, outcome: OutcomeView)
    requires
        daemon.sound(),
        daemon.expects(outcome),
    ensures
        orderly(daemon, now, outcome, daemon.resume(now, outcome)),
{
    match daemon.phase {
        PhaseView::Idle | PhaseView::Stopped => {},
        PhaseView::Opening(_) | PhaseView::Finding(_) | PhaseView::Protecting(_)
        | PhaseView::Listing(_) | PhaseView::Powering(_) | PhaseView::Scanning(_) => {
            initializing_is_orderly(daemon, now, outcome);
        },
        PhaseView::SetupPower { .. } | PhaseView::SetupPaired { .. }
        | PhaseView::SetupBlocked { .. } | PhaseView::SetupAdapter { .. }
        | PhaseView::SetupName { .. } => selecting_is_orderly(daemon, now, outcome),
        PhaseView::SetupSaving { .. } | PhaseView::SetupGuarding { .. }
        | PhaseView::SetupAnnouncing { .. } | PhaseView::Excepted { .. }
        | PhaseView::Closing { .. } | PhaseView::StoringKeys { .. } | PhaseView::SetupScanning => {
            taking_over_is_orderly(daemon, now, outcome);
        },
        PhaseView::Releasing | PhaseView::Restoring { .. } | PhaseView::Relinquishing { .. }
        | PhaseView::Reblocking { .. } => giving_up_is_orderly(daemon, now, outcome),
        _ => serving_is_orderly(daemon, now, outcome),
    }
}

/// The setup exception always ends in a block, however a step of it goes: with
/// keys, without, when it takes too long or when anything fails. Its deadline
/// stays what it was.
pub proof fn the_setup_exception_ends_blocked(daemon: DaemonView, now: u64, outcome: OutcomeView)
    requires
        daemon.sound(),
        daemon.expects(outcome),
        daemon.phase is Excepted,
    ensures
        match (daemon.phase, daemon.resume(now, outcome)) {
            (PhaseView::Excepted { address, config, deadline, .. }, (left, next)) => (
            left.phase matches PhaseView::Excepted { address: a, config: c, deadline: d, .. } && (
                a,
                c,
                d,
            ) == (address, config, deadline)) || next == NextView::Perform(
                OperationView::Block { device: config.address },
            ),
            _ => false,
        },
{
    answers_are_orderly(daemon, now, outcome);
    assert(daemon.resume(now, outcome) == daemon.taking_over(now, outcome));
}

/// The setup exception begins by unblocking a device that was taken over, and has
/// twenty-five seconds.
pub proof fn the_setup_exception_is_short(daemon: DaemonView, now: u64, outcome: OutcomeView)
    requires
        daemon.sound(),
        daemon.expects(outcome),
        !(daemon.phase is Excepted),
    ensures
        daemon.resume(now, outcome).0.phase matches PhaseView::Excepted { deadline, step, .. }
            ==> daemon.phase is SetupAnnouncing && deadline == now + 25_000_000_000 && step
            == Exception::Unblock,
{
    answers_are_orderly(daemon, now, outcome);
}

/// Protection comes before discovery: once the adapter is found, a device under
/// control is blocked before the paired devices are listed, only a confirmed block
/// leads on to that, and only that leads on to scanning.
pub proof fn protection_comes_before_discovery(
    daemon: DaemonView,
    now: u64,
    outcome: OutcomeView,
)
    requires
        daemon.sound(),
        daemon.expects(outcome),
    ensures
        (daemon.phase is Finding && outcome is Done) ==> daemon.resume(now, outcome).1
            == NextView::Perform(
            match daemon.actor.config {
                Some(config) => if config.managed {
                    OperationView::Block { device: config.address }
                } else {
                    OperationView::ListPaired
                },
                None => OperationView::ListPaired,
            },
        ),
        daemon.resume(now, outcome).0.phase is Listing ==> outcome is Done && (daemon.phase
            is Protecting || (daemon.phase is Finding && !(daemon.actor.config matches Some(
            config,
        ) && config.managed))),
        daemon.resume(now, outcome).0.phase is Powering ==> daemon.phase is Listing,
        daemon.resume(now, outcome).0.phase is Scanning ==> daemon.phase is Powering,
{
    answers_are_orderly(daemon, now, outcome);
    if daemon.phase is Finding {
        assert(daemon.resume(now, outcome) == daemon.initializing(now, outcome));
    }
}

/// A device is given up only after its original setting was restored.
pub proof fn release_restores_before_it_gives_up(
    daemon: DaemonView,
    now: u64,
    outcome: OutcomeView,
)
    requires
        daemon.sound(),
        daemon.expects(outcome),
    ensures
        match daemon.resume(now, outcome).0.asked() {
            Some(OperationView::Save { config }) => !config.managed ==> outcome is Done && (
            daemon.asked() matches Some(OperationView::SetBlocked { address, blocked }) && blocked
                == config.original_blocked && address::parsed(config.address) == Ok::<
                Seq<u8>,
                Seq<char>,
            >(address)),
            _ => true,
        },
{
    answers_are_orderly(daemon, now, outcome);
    every_answer_keeps_the_state_sound(daemon, now, outcome);
}

/// Where it cannot be stored that a device was given up, it is blocked again.
pub proof fn a_failed_release_blocks_again(daemon: DaemonView, now: u64, failure: Seq<char>)
    requires
        daemon.sound(),
        daemon.phase is Relinquishing,
    ensures
        match (daemon.phase, daemon.resume(now, OutcomeView::Failed(failure)).1) {
            (
                PhaseView::Relinquishing { config, .. },
                NextView::Perform(OperationView::SetBlocked { address, blocked }),
            ) => blocked && address::parsed(config.address) == Ok::<Seq<u8>, Seq<char>>(address),
            _ => false,
        },
{
}

/// Every request is answered exactly once: it stays owed an answer while the daemon
/// works on it, and gets it when the daemon waits again. Nothing else is answered.
pub proof fn every_request_is_answered_once(daemon: DaemonView, now: u64, outcome: OutcomeView)
    requires
        daemon.sound(),
        daemon.expects(outcome),
    ensures
        match daemon.resume(now, outcome) {
            (left, NextView::Perform(_)) => left.phase.owes() == daemon.phase.owes(),
            (_, NextView::Wait { reply }) => reply is Some == daemon.phase.owes(),
            (_, NextView::Stop { .. }) => !daemon.phase.owes(),
        },
{
    answers_are_orderly(daemon, now, outcome);
}

/// The daemon does not lose itself in work: each answer brings it nearer to
/// waiting again, but for packets that bring no keys, which the deadline of the
/// setup exception ends.
pub proof fn work_comes_to_an_end(daemon: DaemonView, now: u64, outcome: OutcomeView)
    requires
        daemon.sound(),
        daemon.expects(outcome),
        !(outcome is Received),
    ensures
        0 <= daemon.resume(now, outcome).0.phase.distance() < daemon.phase.distance() <= 24,
{
    answers_are_orderly(daemon, now, outcome);
    every_answer_keeps_the_state_sound(daemon, now, outcome);
}

/// Once a connection was attempted, only the end of a setup or of a release lifts
/// the demand that both buds come out first; answers otherwise do not, and none
/// begins an attempt.
pub proof fn answers_begin_no_attempt(daemon: DaemonView, now: u64, outcome: OutcomeView)
    requires
        daemon.sound(),
        daemon.expects(outcome),
    ensures
        (daemon.actor.require_removal && !daemon.resume(now, outcome).0.actor.require_removal)
            ==> outcome is Done && (daemon.phase is StoringKeys || daemon.phase is Relinquishing),
        !(daemon.resume(now, outcome).0.phase is Unblocking),
        daemon.resume(now, outcome).0.phase is Connecting ==> daemon.phase is Unblocking && outcome
            is Done,
{
    answers_are_orderly(daemon, now, outcome);
}

proof fn commands_are_owed_an_answer(actor: ActorView, now: u64, command: CommandView)
    requires
        actor.coherent(),
    ensures
        (DaemonView { actor, phase: PhaseView::Idle }).begin(
            now,
            TriggerView::Command(command),
        ).0.phase.owes(),
{
}

proof fn events_are_owed_nothing(actor: ActorView, now: u64, event: EventView)
    requires
        !(event is Advertisement),
    ensures
        !actor.happened(now, event).0.phase.owes(),
{
}

proof fn observations_are_owed_nothing(
    actor: ActorView,
    now: u64,
    data: Seq<u8>,
    at: u64,
    fresh: bool,
)
    ensures
        !actor.advertised(now, data, at, fresh).0.phase.owes(),
{
}

proof fn the_rest_is_owed_nothing(actor: ActorView, now: u64, bytes: Option<Seq<u8>>)
    ensures
        !actor.received(now, bytes).0.phase.owes(),
        !actor.tick(now).0.phase.owes(),
        !actor.shutdown(now).0.phase.owes(),
{
}

/// A request is owed an answer from the moment it is taken up; nothing else is.
pub proof fn requests_are_owed_an_answer(daemon: DaemonView, now: u64, trigger: TriggerView)
    requires
        daemon.sound(),
        daemon.possible(trigger),
    ensures
        daemon.begin(now, trigger).0.phase.owes() == (trigger is Command),
{
    let actor = daemon.actor;
    match trigger {
        TriggerView::Command(command) => commands_are_owed_an_answer(actor, now, command),
        TriggerView::Event(EventView::Advertisement { data, at, fresh }) => {
            observations_are_owed_nothing(actor, now, data, at, fresh);
        },
        TriggerView::Event(event) => events_are_owed_nothing(actor, now, event),
        TriggerView::Received(bytes) => the_rest_is_owed_nothing(actor, now, bytes),
        _ => the_rest_is_owed_nothing(actor, now, None),
    }
}

} // verus!
