//! What the connection policy guarantees, whatever happens and however it is
//! answered.
use crate::address;
use crate::bluetooth::EventView;
use crate::model::{worn, Ears};
use crate::policy::{
    complete, gathered, sided, started, ActorView, AfterView, CommandView, DaemonView, NextView,
    OperationView, OutcomeView, PhaseView, ReasonView, TriggerView, TurnView,
};
use crate::protocol::{self, PacketView, ReceivedKeysView};
use crate::storage::{ConfigView, KeysView};
use vstd::prelude::*;

verus! {

/// A configuration that would be accepted when it is read back.
pub open spec fn storable(config: ConfigView) -> bool {
    config.identified() && config.keyed()
}

impl ActorView {
    /// No link is held or being made.
    pub open spec fn quiet(self) -> bool {
        !self.linked() && !self.live_ears
    }

    /// The device is under control and there is an adapter to block it with.
    pub open spec fn guarding(self) -> bool {
        self.guarded_device() is Some
    }

    /// What the parts of the state have to do with each other.
    pub open spec fn coherent(self) -> bool {
        &&& self.session == self.adapter
        &&& self.scan ==> self.adapter
        &&& self.linked() ==> self.guarding()
        &&& !(self.connection && self.socket)
        &&& self.live_ears ==> self.socket && worn(self.aap_ears) && self.ear_deadline is None
        &&& self.live_ears ==> self.snapshot.in_ear == sided(self.primary_left, self.aap_ears)
        &&& self.audio ==> self.live_ears
        &&& self.ear_deadline is Some ==> self.socket
        &&& self.snapshot.connected == self.live_ears
        &&& self.snapshot.configured == self.configured()
        &&& self.snapshot.battery.valid()
        &&& self.config matches Some(config) ==> storable(config)
    }
}

/// Keys that have arrived can be used.
pub open spec fn usable_keys(received: ReceivedKeysView) -> bool {
    &&& received.irk matches Some(key) ==> protocol::usable_key(key)
    &&& received.enc matches Some(key) ==> protocol::usable_key(key)
}

pub open spec fn usable_pair(keys: Option<KeysView>) -> bool {
    keys matches Some(keys) ==> !protocol::all_zero(keys.irk) && !protocol::all_zero(keys.enc)
}

pub open spec fn named(reason: ReasonView) -> bool {
    reason matches ReasonView::Setup(address) ==> address.len() == 6
}

impl DaemonView {
    /// What is known of the state while an answer is awaited.
    pub open spec fn fitting(self) -> bool {
        let actor = self.actor;
        match self.phase {
            PhaseView::Idle | PhaseView::Publishing { .. } => true,
            PhaseView::Opening(reason) | PhaseView::Finding(reason) => {
                &&& actor.quiet()
                &&& !actor.adapter
                &&& named(reason)
            },
            PhaseView::Protecting(reason) => actor.quiet() && actor.guarding() && named(reason),
            PhaseView::Listing(reason) | PhaseView::Powering(reason) => {
                &&& actor.quiet()
                &&& actor.adapter
                &&& named(reason)
            },
            PhaseView::Scanning(reason) => {
                &&& actor.quiet()
                &&& actor.adapter
                &&& actor.configured()
                &&& named(reason)
            },
            PhaseView::Offline { .. } => actor.quiet() && actor.guarding() && !actor.scan,
            PhaseView::SetupPower { address } | PhaseView::SetupPaired { address }
            | PhaseView::SetupBlocked { address } => actor.adapter && address.len() == 6,
            PhaseView::SetupAdapter { address, keys, .. } => {
                &&& actor.adapter
                &&& address.len() == 6
                &&& usable_pair(keys)
            },
            PhaseView::SetupName { address, keys, adapter, .. } => {
                &&& actor.adapter
                &&& address.len() == 6
                &&& adapter.len() == 6
                &&& usable_pair(keys)
            },
            PhaseView::SetupSaving { address, config } => {
                &&& actor.adapter
                &&& storable(config)
                &&& config.managed
                &&& address.len() == 6
                &&& config.address == address::written(address)
            },
            PhaseView::SetupGuarding { address, config }
            | PhaseView::SetupAnnouncing { address, config } => self.taken(address, config),
            PhaseView::Excepted { address, config, received, .. } => {
                &&& self.taken(address, config)
                &&& usable_keys(received)
            },
            PhaseView::Closing { config, result } => {
                &&& actor.quiet()
                &&& actor.guarding()
                &&& actor.config == Some(config)
                &&& result matches Ok(keys) ==> usable_pair(Some(keys))
            },
            PhaseView::StoringKeys { config, .. } => {
                &&& actor.quiet()
                &&& actor.guarding()
                &&& storable(config)
                &&& actor.config matches Some(owned) && config == ConfigView {
                    keys: config.keys,
                    ..owned
                }
                &&& config.configured()
            },
            PhaseView::SetupScanning => actor.quiet() && actor.adapter && actor.configured(),
            PhaseView::Restoring { address, config } => {
                &&& actor.quiet()
                &&& actor.guarding()
                &&& actor.config == Some(config)
                &&& address::parsed(config.address) == Ok::<Seq<u8>, Seq<char>>(address)
            },
            PhaseView::Relinquishing { address, config } => {
                &&& actor.quiet()
                &&& actor.guarding()
                &&& actor.config matches Some(owned) && config == ConfigView {
                    managed: false,
                    ..owned
                }
                &&& address::parsed(config.address) == Ok::<Seq<u8>, Seq<char>>(address)
            },
            PhaseView::Reblocking { address, .. } => {
                &&& actor.quiet()
                &&& actor.guarding()
                &&& actor.config matches Some(config) && address::parsed(config.address) == Ok::<
                    Seq<u8>,
                    Seq<char>,
                >(address)
            },
            PhaseView::Releasing | PhaseView::Guarding { .. }
            | PhaseView::Losing | PhaseView::Expiring | PhaseView::Stopping => actor.quiet()
                && actor.guarding(),
            PhaseView::Sending { .. } | PhaseView::Announcing | PhaseView::Preferring => {
                actor.live_ears
            },
            PhaseView::Unblocking { address, config } => {
                &&& actor.quiet()
                &&& actor.guarding()
                &&& actor.config == Some(config)
                &&& actor.require_removal
                &&& worn(actor.snapshot.in_ear)
                &&& address::parsed(config.address) == Ok::<Seq<u8>, Seq<char>>(address)
            },
            PhaseView::Connecting => actor.connection,
            PhaseView::TickPower | PhaseView::TickPaired => actor.adapter,
            PhaseView::Stopped => actor.quiet(),
        }
    }

    /// The device is the daemon's, on disk too, and no link is left.
    pub open spec fn taken(self, address: Seq<u8>, config: ConfigView) -> bool {
        &&& self.actor.quiet()
        &&& self.actor.guarding()
        &&& self.actor.config == Some(config)
        &&& address.len() == 6
        &&& config.address == address::written(address)
    }

    /// What the daemon has asked for, if it awaits an answer.
    pub open spec fn asked(self) -> Option<OperationView> {
        let actor = self.actor;
        match self.phase {
            PhaseView::Idle | PhaseView::Stopped => None,
            PhaseView::Opening(_) => Some(OperationView::OpenSession),
            PhaseView::Finding(_) => Some(
                OperationView::FindAdapter {
                    adapter: match actor.config {
                        Some(config) => Some(config.adapter),
                        None => None,
                    },
                },
            ),
            PhaseView::Protecting(_) | PhaseView::Offline { .. } | PhaseView::SetupGuarding { .. }
            | PhaseView::Closing { .. } | PhaseView::Releasing | PhaseView::Guarding { .. }
            | PhaseView::Losing | PhaseView::Expiring | PhaseView::Stopping => {
                match actor.guarded_device() {
                    Some(device) => Some(OperationView::Block { device }),
                    None => None,
                }
            },
            PhaseView::Listing(_) | PhaseView::TickPaired => Some(OperationView::ListPaired),
            PhaseView::Powering(_) | PhaseView::TickPower | PhaseView::SetupPower { .. } => Some(
                OperationView::QueryPowered,
            ),
            PhaseView::Scanning(_) | PhaseView::SetupScanning => match actor.config {
                Some(config) => Some(OperationView::StartScanner { config }),
                None => None,
            },
            PhaseView::SetupPaired { address } => Some(OperationView::QueryPaired { address }),
            PhaseView::SetupBlocked { address } => Some(OperationView::QueryBlocked { address }),
            PhaseView::SetupAdapter { .. } => Some(OperationView::QueryAdapterAddress),
            PhaseView::SetupName { address, .. } => Some(OperationView::QueryName { address }),
            PhaseView::SetupSaving { config, .. } | PhaseView::StoringKeys { config, .. }
            | PhaseView::Relinquishing { config, .. } => Some(OperationView::Save { config }),
            PhaseView::SetupAnnouncing { .. } | PhaseView::Announcing
            | PhaseView::Publishing { .. } => Some(OperationView::Publish),
            PhaseView::Excepted { address, deadline, step, .. } => Some(
                OperationView::Except { address, deadline, step },
            ),
            PhaseView::Restoring { address, config } => Some(
                OperationView::SetBlocked { address, blocked: config.original_blocked },
            ),
            PhaseView::Reblocking { address, .. } => Some(
                OperationView::SetBlocked { address, blocked: true },
            ),
            PhaseView::Sending { mode } => Some(OperationView::SendMode { mode }),
            PhaseView::Unblocking { address, .. } => Some(
                OperationView::SetBlocked { address, blocked: false },
            ),
            PhaseView::Connecting => match actor.config {
                Some(config) => Some(
                    OperationView::StartConnection { config, generation: actor.generation },
                ),
                None => None,
            },
            PhaseView::Preferring => match actor.config {
                Some(config) => Some(
                    OperationView::StartAudio {
                        device: config.address,
                        generation: actor.generation,
                    },
                ),
                None => None,
            },
        }
    }

    /// The daemon as it can be between two answers.
    pub open spec fn sound(self) -> bool {
        self.actor.coherent() && self.fitting()
    }

    /// What can happen while the daemon waits: bytes come only over a channel that
    /// is held, and a connection is only ready if one is being made.
    pub open spec fn possible(self, trigger: TriggerView) -> bool {
        &&& self.phase is Idle
        &&& trigger is Received ==> self.actor.socket
        &&& (trigger matches TriggerView::Event(EventView::Ready { generation, .. }) && generation
            == self.actor.generation) ==> self.actor.connection
    }
}

/// The daemon that is left after a turn is as it can be between two answers, and
/// what it asks for belongs to what it awaits.
pub open spec fn leaves_sound(turn: TurnView) -> bool {
    &&& turn.0.sound()
    &&& match turn.1 {
        NextView::Perform(operation) => turn.0.asked() == Some(operation),
        NextView::Wait { .. } => turn.0.phase is Idle,
        NextView::Stop { .. } => turn.0.phase is Stopped,
    }
}

proof fn guarded_is_coherent(actor: ActorView, now: u64)
    requires
        actor.session == actor.adapter,
        actor.scan ==> actor.adapter,
        actor.config matches Some(config) ==> storable(config),
    ensures
        actor.guarded(now).coherent(),
        actor.guarded(now).quiet(),
        actor.guarded(now).config == actor.config,
        actor.guarded(now).guarded_device() == actor.guarded_device(),
        actor.guarded(now).adapter == actor.adapter,
        actor.guarded(now).scan == actor.scan,
{
}

proof fn maintaining_is_sound(actor: ActorView, now: u64)
    requires
        actor.coherent(),
    ensures
        leaves_sound(actor.maintain(now)),
{
}

proof fn offline_is_sound(actor: ActorView, now: u64, reason: Seq<char>, after: AfterView)
    requires
        actor.session == actor.adapter,
        actor.scan ==> actor.adapter,
        actor.config matches Some(config) ==> storable(config),
    ensures
        leaves_sound(actor.offline(now, reason, after)),
{
    guarded_is_coherent(actor.unscanned(), now);
    let guarded = actor.unscanned().guarded(now);
    if guarded.guarded_device() is None {
        gone_is_sound(guarded, now, reason, None, after);
    }
}

proof fn gone_is_sound(
    actor: ActorView,
    now: u64,
    reason: Seq<char>,
    guard: Option<Seq<char>>,
    after: AfterView,
)
    requires
        actor.coherent(),
        actor.quiet(),
        !actor.scan,
    ensures
        leaves_sound(actor.gone(now, reason, guard, after)),
{
    maintaining_is_sound(actor.given_up(reason, guard), now);
}

proof fn guarding_is_sound(actor: ActorView, now: u64, ears: Option<Ears>)
    requires
        actor.session == actor.adapter,
        actor.scan ==> actor.adapter,
        actor.config matches Some(config) ==> storable(config),
    ensures
        leaves_sound(actor.guard(now, ears)),
{
    guarded_is_coherent(actor, now);
}

proof fn releasing_is_sound(actor: ActorView, now: u64)
    requires
        actor.coherent(),
        actor.quiet(),
    ensures
        leaves_sound(actor.restore(now)),
{
    if actor.config matches Some(config) && config.managed {
        if !actor.adapter {
            offline_is_sound(
                actor,
                now,
                "Bluetooth is unavailable; cannot restore original device setting"@,
                AfterView::Reply(
                    "Bluetooth is unavailable; cannot restore original device setting"@,
                ),
            );
        }
    }
}

proof fn setting_up_is_sound(actor: ActorView, now: u64, text: Seq<char>)
    requires
        actor.coherent(),
    ensures
        leaves_sound(actor.setup(now, text)),
{
    match address::parsed(text) {
        Err(message) => {
            let reason = "invalid Bluetooth address: "@ + message;
            offline_is_sound(actor, now, reason, AfterView::Reply(reason));
        },
        Ok(_) => {
            let reason = "release the managed device before selecting another"@;
            offline_is_sound(actor, now, reason, AfterView::Reply(reason));
        },
    }
}

proof fn attempts_are_sound(actor: ActorView, now: u64)
    requires
        actor.coherent(),
        actor.quiet(),
        actor.configured(),
        worn(actor.snapshot.in_ear),
    ensures
        leaves_sound(actor.attempt(now)),
{
    offline_is_sound(actor, now, "Bluetooth adapter is unavailable"@, AfterView::Publish);
}

proof fn advertisements_are_sound(
    actor: ActorView,
    now: u64,
    data: Seq<u8>,
    at: u64,
    fresh: bool,
)
    requires
        actor.coherent(),
    ensures
        leaves_sound(actor.advertised(now, data, at, fresh)),
{
    guarding_is_sound(actor, now, None);
    if let Some(enc) = actor.reading_key() {
        if let Some(seen) = protocol::advertised_to(data, enc) {
            protocol::charges_are_valid(
                Seq::empty(),
                data,
                crate::cipher::decrypted(enc, data.subrange(11, 27)),
            );
            let noted = ActorView { last_ble: Some(at), ..actor.shown(seen) };
            if !actor.live_ears {
                assert(noted.coherent());
                guarding_is_sound(noted.taken_out(seen.ears), now, Some(seen.ears));
                if worn(seen.ears) && !noted.linked() {
                    attempts_are_sound(noted, now);
                }
            }
        }
    }
}

proof fn readiness_is_sound(
    actor: ActorView,
    now: u64,
    generation: u64,
    failure: Option<Seq<char>>,
)
    requires
        actor.coherent(),
        generation == actor.generation ==> actor.connection,
    ensures
        leaves_sound(actor.ready(now, generation, failure)),
{
    if generation == actor.generation {
        let over = ActorView { connection: false, ..actor };
        guarding_is_sound(over, now, None);
        if let Some(message) = failure {
            offline_is_sound(over, now, message, AfterView::Publish);
        }
    }
}

proof fn packets_are_sound(actor: ActorView, now: u64, bytes: Option<Seq<u8>>)
    requires
        actor.coherent(),
        actor.socket,
    ensures
        leaves_sound(actor.received(now, bytes)),
{
    guarded_is_coherent(actor, now);
    if let Some(bytes) = bytes {
        protocol::charges_are_valid(bytes, Seq::empty(), Seq::empty());
        if let Some(PacketView::Ear(ears)) = protocol::parsed(bytes) {
            let told = ActorView { aap_ears: ears, ..actor };
            guarding_is_sound(told.taken_out(ears), now, Some(sided(actor.primary_left, ears)));
        }
    }
}

proof fn ticks_are_sound(actor: ActorView, now: u64)
    requires
        actor.coherent(),
    ensures
        leaves_sound(actor.tick(now)),
{
    let told = actor.unconfirmed(now);
    assert(told.coherent());
    guarded_is_coherent(told, now);
    let guarded = told.guarded(now);
    maintaining_is_sound(
        guarded.failed(
            "AAP did not confirm in-ear status within five seconds; remove both buds before retrying"@,
        ),
        now,
    );
    assert(told.forgotten(now).coherent());
    maintaining_is_sound(told.forgotten(now), now);
}

/// Whatever happens, the parts of the state keep fitting each other: the device is
/// shown as connected exactly while a channel is open over which it reported that
/// it is worn, audio is arranged only then, links are held only to a device that
/// can be blocked again, and what is stored can be read back.
pub proof fn every_trigger_keeps_the_state_sound(
    daemon: DaemonView,
    now: u64,
    trigger: TriggerView,
)
    requires
        daemon.sound(),
        daemon.possible(trigger),
    ensures
        leaves_sound(daemon.begin(now, trigger)),
{
    let actor = daemon.actor;
    match trigger {
        TriggerView::Command(CommandView::Setup(text)) => setting_up_is_sound(actor, now, text),
        TriggerView::Command(CommandView::Mode(_)) => {},
        TriggerView::Command(CommandView::Release) => {
            guarded_is_coherent(actor.unscanned(), now);
            releasing_is_sound(actor.unscanned().guarded(now), now);
        },
        TriggerView::Event(EventView::Advertisement { data, at, fresh }) => {
            advertisements_are_sound(actor, now, data, at, fresh);
        },
        TriggerView::Event(EventView::Ready { generation, failure }) => {
            readiness_is_sound(actor, now, generation, failure);
        },
        TriggerView::Event(EventView::Failure(message)) => {
            offline_is_sound(actor, now, message, AfterView::Publish);
        },
        TriggerView::Event(_) => guarding_is_sound(actor, now, None),
        TriggerView::Received(bytes) => packets_are_sound(actor, now, bytes),
        TriggerView::Tick => ticks_are_sound(actor, now),
        TriggerView::Shutdown => guarded_is_coherent(actor.unscanned(), now),
    }
}

proof fn initializing_is_sound(daemon: DaemonView, now: u64, outcome: OutcomeView)
    requires
        daemon.sound(),
        daemon.expects(outcome),
        daemon.phase is Opening || daemon.phase is Finding || daemon.phase is Protecting
            || daemon.phase is Listing || daemon.phase is Powering || daemon.phase is Scanning,
    ensures
        leaves_sound(daemon.initializing(now, outcome)),
{
    let actor = daemon.actor;
    let held = ActorView { adapter: true, session: true, ..actor };
    guarded_is_coherent(held, now);
    let failure = match outcome {
        OutcomeView::Failed(failure) => failure,
        _ => "Bluetooth adapter is powered off"@,
    };
    offline_is_sound(actor, now, failure, AfterView::Reply(failure));
    offline_is_sound(actor, now, failure, AfterView::Publish);
}

proof fn selecting_is_sound(daemon: DaemonView, now: u64, outcome: OutcomeView)
    requires
        daemon.sound(),
        daemon.expects(outcome),
        daemon.phase is SetupPower || daemon.phase is SetupPaired || daemon.phase is SetupBlocked
            || daemon.phase is SetupAdapter || daemon.phase is SetupName,
    ensures
        leaves_sound(daemon.selecting(now, outcome)),
{
    let actor = daemon.actor;
    let failure = match (daemon.phase, outcome) {
        (_, OutcomeView::Failed(failure)) => failure,
        (PhaseView::SetupPower { .. }, _) => "Bluetooth adapter is powered off"@,
        (PhaseView::SetupPaired { .. }, _) => "setup requires an already paired device"@,
        _ => "selected device was already blocked; unblock it explicitly before setup"@,
    };
    offline_is_sound(actor, now, failure, AfterView::Reply(failure));
    if let PhaseView::SetupName { address, adapter, .. } = daemon.phase {
        address::written_addresses_are_read(address);
        address::written_addresses_are_read(adapter);
    }
}

proof fn closing_is_sound(
    actor: ActorView,
    now: u64,
    config: ConfigView,
    result: Result<KeysView, Seq<char>>,
)
    requires
        actor.coherent(),
        actor.guarding(),
        actor.config == Some(config),
        result matches Ok(keys) ==> usable_pair(Some(keys)),
    ensures
        leaves_sound(actor.close(now, config, result)),
{
    guarded_is_coherent(actor, now);
}

proof fn gathered_keys_are_usable(received: ReceivedKeysView, packet: Seq<u8>)
    requires
        usable_keys(received),
    ensures
        usable_keys(gathered(received, packet)),
        complete(gathered(received, packet)) matches Some(keys) ==> usable_pair(Some(keys)),
{
    protocol::received_keys_are_usable(packet);
}

proof fn taking_over_is_sound(daemon: DaemonView, now: u64, outcome: OutcomeView)
    requires
        daemon.sound(),
        daemon.expects(outcome),
        daemon.phase is SetupSaving || daemon.phase is SetupGuarding || daemon.phase
            is SetupAnnouncing || daemon.phase is Excepted || daemon.phase is Closing
            || daemon.phase is StoringKeys || daemon.phase is SetupScanning,
    ensures
        leaves_sound(daemon.taking_over(now, outcome)),
{
    let actor = daemon.actor;
    if let OutcomeView::Failed(failure) = outcome {
        offline_is_sound(actor, now, failure, AfterView::Reply(failure));
    }
    match daemon.phase {
        PhaseView::SetupSaving { config, .. } => {
            guarded_is_coherent(ActorView { config: Some(config), ..actor }.unscanned(), now);
        },
        PhaseView::Excepted { config, received, .. } => {
            match outcome {
                OutcomeView::Received(packet) => {
                    gathered_keys_are_usable(received, packet);
                    closing_is_sound(
                        actor,
                        now,
                        config,
                        Err("AAP connection closed before proximity keys arrived"@),
                    );
                    if let Some(keys) = complete(gathered(received, packet)) {
                        closing_is_sound(actor, now, config, Ok(keys));
                    }
                },
                OutcomeView::Failed(failure) => closing_is_sound(actor, now, config, Err(failure)),
                _ => {},
            }
        },
        PhaseView::Closing { result, .. } => {
            if let Err(failure) = result {
                offline_is_sound(actor, now, failure, AfterView::Reply(failure));
            }
        },
        PhaseView::StoringKeys { config, guard } => {
            let keyed = ActorView { config: Some(config), ..actor };
            if let Some(failure) = guard {
                offline_is_sound(keyed, now, failure, AfterView::Reply(failure));
            }
        },
        _ => {},
    }
}

proof fn giving_up_is_sound(daemon: DaemonView, now: u64, outcome: OutcomeView)
    requires
        daemon.sound(),
        daemon.expects(outcome),
        daemon.phase is Releasing || daemon.phase is Restoring || daemon.phase is Relinquishing
            || daemon.phase is Reblocking,
    ensures
        leaves_sound(daemon.releasing(now, outcome)),
{
    let actor = daemon.actor;
    match (daemon.phase, outcome) {
        (PhaseView::Releasing, OutcomeView::Done) => releasing_is_sound(actor, now),
        (PhaseView::Reblocking { reason, .. }, OutcomeView::Done) => {
            offline_is_sound(actor, now, reason, AfterView::Reply(reason));
        },
        (PhaseView::Reblocking { .. }, OutcomeView::Failed(failure)) => {
            let reason = "release save failed and guard could not be restored: "@ + failure;
            offline_is_sound(actor, now, reason, AfterView::Reply(reason));
        },
        (_, OutcomeView::Failed(failure)) => {
            offline_is_sound(actor, now, failure, AfterView::Reply(failure));
        },
        _ => {},
    }
}

proof fn serving_is_sound(daemon: DaemonView, now: u64, outcome: OutcomeView)
    requires
        daemon.sound(),
        daemon.expects(outcome),
        daemon.phase is Offline || daemon.phase is Sending || daemon.phase is Unblocking
            || daemon.phase is Connecting || daemon.phase is Guarding || daemon.phase is Announcing
            || daemon.phase is Preferring || daemon.phase is Losing || daemon.phase is Expiring
            || daemon.phase is TickPower || daemon.phase is TickPaired || daemon.phase
            is Publishing || daemon.phase is Stopping,
    ensures
        leaves_sound(daemon.serving(now, outcome)),
{
    let actor = daemon.actor;
    match (daemon.phase, outcome) {
        (PhaseView::Offline { reason, after }, OutcomeView::Done) => {
            gone_is_sound(actor, now, reason, None, after);
        },
        (PhaseView::Offline { reason, after }, OutcomeView::Failed(failure)) => {
            gone_is_sound(actor, now, reason, Some(failure), after);
        },
        (PhaseView::Losing, OutcomeView::Failed(failure)) => {
            offline_is_sound(
                actor,
                now,
                "AAP link lost; guard failed: "@ + failure,
                AfterView::Publish,
            );
        },
        (PhaseView::Expiring, OutcomeView::Failed(failure)) => {
            offline_is_sound(
                actor,
                now,
                "AAP confirmation timed out; guard failed: "@ + failure,
                AfterView::Maintain,
            );
        },
        (PhaseView::Expiring, OutcomeView::Done) => {
            maintaining_is_sound(
                actor.failed(
                    "AAP did not confirm in-ear status within five seconds; remove both buds before retrying"@,
                ),
                now,
            );
        },
        (PhaseView::TickPower, OutcomeView::Flag(false)) => {
            offline_is_sound(actor, now, "Bluetooth adapter is powered off"@, AfterView::Publish);
        },
        (_, OutcomeView::Failed(failure)) => {
            offline_is_sound(actor, now, failure, AfterView::Publish);
        },
        _ => {},
    }
}

/// However the daemon is answered, the parts of the state keep fitting each other.
pub proof fn every_answer_keeps_the_state_sound(
    daemon: DaemonView,
    now: u64,
    outcome: OutcomeView,
)
    requires
        daemon.sound(),
        daemon.expects(outcome),
    ensures
        leaves_sound(daemon.resume(now, outcome)),
{
    match daemon.phase {
        PhaseView::Idle | PhaseView::Stopped => {},
        PhaseView::Opening(_) | PhaseView::Finding(_) | PhaseView::Protecting(_)
        | PhaseView::Listing(_) | PhaseView::Powering(_) | PhaseView::Scanning(_) => {
            initializing_is_sound(daemon, now, outcome);
        },
        PhaseView::SetupPower { .. } | PhaseView::SetupPaired { .. }
        | PhaseView::SetupBlocked { .. } | PhaseView::SetupAdapter { .. }
        | PhaseView::SetupName { .. } => selecting_is_sound(daemon, now, outcome),
        PhaseView::SetupSaving { .. } | PhaseView::SetupGuarding { .. }
        | PhaseView::SetupAnnouncing { .. } | PhaseView::Excepted { .. }
        | PhaseView::Closing { .. } | PhaseView::StoringKeys { .. } | PhaseView::SetupScanning => {
            taking_over_is_sound(daemon, now, outcome);
        },
        PhaseView::Releasing | PhaseView::Restoring { .. } | PhaseView::Relinquishing { .. }
        | PhaseView::Reblocking { .. } => giving_up_is_sound(daemon, now, outcome),
        _ => serving_is_sound(daemon, now, outcome),
    }
}

/// The daemon starts sound with any configuration that can be read back.
pub proof fn the_start_is_sound(config: Option<ConfigView>, now: u64)
    requires
        config matches Some(config) ==> storable(config),
    ensures
        leaves_sound(started(config, now)),
{
}

} // verus!
