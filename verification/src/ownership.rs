//! How a device is taken over and given up, and what is stored of it.
use crate::address;
use crate::conduct::{ends_offline, forgets, offline_ends, shows_rest};
use crate::daemon::{Operation, Outcome};
use crate::model::SnapshotView;
use crate::policy::{
    ActorView, CommandView, DaemonView, Exception, NextView, OperationView, OutcomeView, PhaseView,
    ReasonView, TriggerView,
};
use crate::protocol::{self, PacketView, ReceivedKeysView};
use crate::storage::{Config, ConfigView, Keys, KeysView};
use vstd::prelude::*;

verus! {

/// Setup begins with the device that a text names: an adapter that is not held is
/// initialized for it first. A text that names none is refused.
pub proof fn setup_is_of_the_named_device(
    daemon: DaemonView,
    now: u64,
    text: Seq<char>,
)
    ensures
        ({
            let (left, next) = daemon.begin(now, TriggerView::Command(CommandView::Setup(text)));
            match address::parsed(text) {
                Err(message) => {
                    let reason = "invalid Bluetooth address: "@ + message;
                    ends_offline(daemon.actor, now, reason, Some(reason), (left, next))
                },
                Ok(address) => {
                    let other = daemon.actor.config matches Some(config) && config.managed
                        && config.address != address::written(address);
                    let reason = "release the managed device before selecting another"@;
                    if other {
                        ends_offline(daemon.actor, now, reason, Some(reason), (left, next))
                    } else {
                        &&& left.actor == daemon.actor
                        &&& daemon.actor.adapter ==> left.phase == (PhaseView::SetupPower {
                            address,
                        }) && next == NextView::Perform(OperationView::QueryPowered)
                        &&& !daemon.actor.adapter ==> left.phase == PhaseView::Opening(
                            ReasonView::Setup(address),
                        ) && next == NextView::Perform(OperationView::OpenSession)
                    }
                },
            }
        }),
{
    let actor = daemon.actor;
    let other = "release the managed device before selecting another"@;
    offline_ends(actor, actor, now, other, Some(other));
    if let Err(message) = address::parsed(text) {
        let reason = "invalid Bluetooth address: "@ + message;
        offline_ends(actor, actor, now, reason, Some(reason));
    }
}

/// What setup asks of a device before it takes it over: that there is power, that it
/// is paired, and, of one that is not under control already, that it is not blocked.
/// Otherwise it is refused, and who asked is told why.
pub proof fn setup_takes_paired_devices(
    daemon: DaemonView,
    now: u64,
    address: Seq<u8>,
)
    ensures
        daemon.phase == (PhaseView::SetupPower { address }) ==> {
            &&& daemon.resume(now, OutcomeView::Flag(true)) == (
                DaemonView { phase: PhaseView::SetupPaired { address }, ..daemon },
                NextView::Perform(OperationView::QueryPaired { address }),
            )
            &&& ends_offline(
                daemon.actor,
                now,
                "Bluetooth adapter is powered off"@,
                Some("Bluetooth adapter is powered off"@),
                daemon.resume(now, OutcomeView::Flag(false)),
            )
        },
        daemon.phase == (PhaseView::SetupPaired { address }) ==> ends_offline(
            daemon.actor,
            now,
            "setup requires an already paired device"@,
            Some("setup requires an already paired device"@),
            daemon.resume(now, OutcomeView::Flag(false)),
        ),
        daemon.phase == (PhaseView::SetupBlocked { address }) ==> ends_offline(
            daemon.actor,
            now,
            "selected device was already blocked; unblock it explicitly before setup"@,
            Some("selected device was already blocked; unblock it explicitly before setup"@),
            daemon.resume(now, OutcomeView::Flag(true)),
        ),
{
    let actor = daemon.actor;
    let off = "Bluetooth adapter is powered off"@;
    let unpaired = "setup requires an already paired device"@;
    let blocked = "selected device was already blocked; unblock it explicitly before setup"@;
    offline_ends(actor, actor, now, off, Some(off));
    offline_ends(actor, actor, now, unpaired, Some(unpaired));
    offline_ends(actor, actor, now, blocked, Some(blocked));
}

/// A step of a setup or of a release that fails ends it: who asked is told why, and
/// the device is blocked if it is under control.
pub proof fn failed_steps_are_answered(daemon: DaemonView, now: u64, failure: Seq<char>)
    requires
        daemon.phase is SetupPower || daemon.phase is SetupPaired || daemon.phase is SetupBlocked
            || daemon.phase is SetupAdapter || daemon.phase is SetupName || daemon.phase
            is SetupSaving || daemon.phase is SetupGuarding || daemon.phase is StoringKeys
            || daemon.phase is SetupScanning || daemon.phase is Releasing || daemon.phase
            is Restoring,
    ensures
        ends_offline(
            daemon.actor,
            now,
            failure,
            Some(failure),
            daemon.resume(now, OutcomeView::Failed(failure)),
        ),
{
    offline_ends(daemon.actor, daemon.actor, now, failure, Some(failure));
}

/// What a setup stores of a device: its address and its adapter as they are written,
/// the name that it gives itself, and that it is under control.
pub open spec fn describes(
    config: ConfigView,
    address: Seq<u8>,
    adapter: Seq<u8>,
    name: Option<Seq<char>>,
) -> bool {
    &&& config.schema == 1
    &&& config.address == address::written(address)
    &&& config.adapter == address::written(adapter)
    &&& config.name == match name {
        Some(name) => name,
        None => "AirPods"@,
    }
    &&& config.managed
}

/// A device that is under control already keeps the setting that it had before it was
/// first taken over, and its keys: it is not asked again whether it is blocked, and
/// what setup stores of it says the same of both as before.
pub proof fn a_repeated_setup_keeps_the_original_setting(
    daemon: DaemonView,
    t1: u64,
    t2: u64,
    t3: u64,
    address: Seq<u8>,
    adapter: Seq<u8>,
    name: Option<Seq<char>>,
    config: ConfigView,
)
    requires
        daemon.phase == (PhaseView::SetupPaired { address }),
        daemon.actor.config == Some(config),
        config.managed,
        config.address == address::written(address),
    ensures
        ({
            let (one, first) = daemon.resume(t1, OutcomeView::Flag(true));
            let (two, second) = one.resume(t2, OutcomeView::Address(adapter));
            let (three, third) = two.resume(t3, OutcomeView::Name(name));
            &&& first == NextView::Perform(OperationView::QueryAdapterAddress)
            &&& second == NextView::Perform(OperationView::QueryName { address })
            &&& three.actor == daemon.actor
            &&& third matches NextView::Perform(OperationView::Save { config: stored }) && {
                &&& stored.original_blocked == config.original_blocked
                &&& stored.keys == config.keys
                &&& describes(stored, address, adapter, name)
                &&& three.phase == (PhaseView::SetupSaving { address, config: stored })
            }
        }),
{
}

/// A device that is not under control is asked whether it is blocked, and that it was
/// not is what is stored as its original setting. It has no keys.
pub proof fn a_first_setup_stores_the_original_setting(
    daemon: DaemonView,
    t0: u64,
    t1: u64,
    t2: u64,
    t3: u64,
    address: Seq<u8>,
    adapter: Seq<u8>,
    name: Option<Seq<char>>,
    blocked: bool,
)
    requires
        daemon.phase == (PhaseView::SetupPaired { address }),
        daemon.actor.config matches Some(config) ==> !config.managed || config.address
            != address::written(address),
    ensures
        ({
            let (zero, question) = daemon.resume(t0, OutcomeView::Flag(true));
            let (one, first) = zero.resume(t1, OutcomeView::Flag(blocked));
            let (two, second) = one.resume(t2, OutcomeView::Address(adapter));
            let (three, third) = two.resume(t3, OutcomeView::Name(name));
            &&& question == NextView::Perform(OperationView::QueryBlocked { address })
            &&& !blocked ==> {
                &&& first == NextView::Perform(OperationView::QueryAdapterAddress)
                &&& second == NextView::Perform(OperationView::QueryName { address })
                &&& three.actor == daemon.actor
                &&& third matches NextView::Perform(OperationView::Save { config: stored }) && {
                    &&& stored.original_blocked == blocked
                    &&& stored.keys is None
                    &&& describes(stored, address, adapter, name)
                    &&& three.phase == (PhaseView::SetupSaving { address, config: stored })
                }
            }
        }),
{
}

/// Once it is stored the device is the daemon's: it is blocked, what was known is
/// forgotten, that it is being connected is shown, and then the exception begins with
/// its unblocking. It has twenty-five seconds.
pub proof fn a_stored_device_is_taken_over(
    daemon: DaemonView,
    t1: u64,
    t2: u64,
    t3: u64,
    address: Seq<u8>,
    config: ConfigView,
)
    requires
        daemon.phase == (PhaseView::SetupSaving { address, config }),
        daemon.actor.adapter,
        config.managed,
    ensures
        ({
            let (one, first) = daemon.resume(t1, OutcomeView::Done);
            let (two, second) = one.resume(t2, OutcomeView::Done);
            let (three, third) = two.resume(t3, OutcomeView::Done);
            &&& one.actor.config == Some(config)
            &&& !one.actor.scan
            &&& forgets(ActorView { config: Some(config), ..daemon.actor }, one.actor, t1)
            &&& first == NextView::Perform(OperationView::Block { device: config.address })
            &&& second == NextView::Perform(OperationView::Publish)
            &&& two.actor == ActorView {
                snapshot: SnapshotView {
                    name: config.name,
                    status: "connecting"@,
                    error: None,
                    ..one.actor.snapshot
                },
                ..one.actor
            }
            &&& three.actor == two.actor
            &&& third == NextView::Perform(
                OperationView::Except {
                    address,
                    deadline: t3 + 25_000_000_000,
                    step: Exception::Unblock,
                },
            )
            &&& three.phase matches PhaseView::Excepted { config: c, received, .. } && c == config
                && received.irk is None && received.enc is None
        }),
{
}

/// The exception takes its steps in order, each once: the device is unblocked,
/// connected, its channel opened, its keys asked for, and packets received.
pub proof fn the_exception_takes_its_steps(
    daemon: DaemonView,
    now: u64,
    address: Seq<u8>,
    config: ConfigView,
    deadline: int,
    received: ReceivedKeysView,
    step: Exception,
)
    requires
        daemon.phase == (PhaseView::Excepted { address, config, deadline, received, step }),
    ensures
        ({
            let (left, next) = daemon.resume(now, OutcomeView::Done);
            &&& next matches NextView::Perform(
                OperationView::Except { address: a, deadline: d, step: s },
            ) && a == address && d == deadline && {
                &&& s is Connect <==> step is Unblock
                &&& s is Attach <==> step is Connect
                &&& s is RequestKeys <==> step is Attach
                &&& s is Receive <==> step is RequestKeys || step is Receive
                &&& left.phase == (PhaseView::Excepted {
                    address,
                    config,
                    deadline,
                    received,
                    step: s,
                })
            }
            &&& left.actor == daemon.actor
        }),
{
}

/// Keys are gathered over packets: a key that a packet brings replaces one of its kind
/// that came before, and the others stay. As long as one is missing, the next packet is
/// awaited; once both are there, the device is blocked. An empty packet ends the
/// exception, with a failure.
pub proof fn keys_are_gathered(
    daemon: DaemonView,
    now: u64,
    address: Seq<u8>,
    config: ConfigView,
    deadline: int,
    received: ReceivedKeysView,
    packet: Seq<u8>,
)
    requires
        daemon.phase == (PhaseView::Excepted {
            address,
            config,
            deadline,
            received,
            step: Exception::Receive,
        }),
        daemon.actor.adapter,
        daemon.actor.config == Some(config),
        config.managed,
    ensures
        ({
            let (left, next) = daemon.resume(now, OutcomeView::Received(packet));
            let brought = match protocol::parsed(packet) {
                Some(PacketView::Keys(keys)) => keys,
                _ => ReceivedKeysView { irk: None, enc: None },
            };
            let irk = if brought.irk is Some {
                brought.irk
            } else {
                received.irk
            };
            let enc = if brought.enc is Some {
                brought.enc
            } else {
                received.enc
            };
            if packet.len() > 0 && (irk is None || enc is None) {
                &&& left.actor == daemon.actor
                &&& left.phase == (PhaseView::Excepted {
                    address,
                    config,
                    deadline,
                    received: ReceivedKeysView { irk, enc },
                    step: Exception::Receive,
                })
                &&& next == NextView::Perform(
                    OperationView::Except { address, deadline, step: Exception::Receive },
                )
            } else {
                &&& next == NextView::Perform(OperationView::Block { device: config.address })
                &&& forgets(daemon.actor, left.actor, now)
                &&& left.actor.scan == daemon.actor.scan
                &&& left.phase == (PhaseView::Closing {
                    config,
                    result: if packet.len() == 0 {
                        Err("AAP connection closed before proximity keys arrived"@)
                    } else {
                        Ok(KeysView { irk: irk->0, enc: enc->0 })
                    },
                })
            }
        }),
        forall|failure: Seq<char>|
            {
                let (left, next) = #[trigger] daemon.resume(now, OutcomeView::Failed(failure));
                &&& next == NextView::Perform(OperationView::Block { device: config.address })
                &&& left.phase == (PhaseView::Closing { config, result: Err(failure) })
            },
{
}

/// Keys that were gathered are stored with the device, everything else about it
/// staying the same; then its advertisements are looked for, and who asked for the
/// setup is told that all is well. The next connection is allowed.
pub proof fn gathered_keys_are_stored(
    daemon: DaemonView,
    t1: u64,
    t2: u64,
    t3: u64,
    config: ConfigView,
    keys: KeysView,
)
    requires
        daemon.phase == (PhaseView::Closing { config, result: Ok(keys) }),
        config.managed,
    ensures
        ({
            let keyed = ConfigView { keys: Some(keys), ..config };
            let (one, first) = daemon.resume(t1, OutcomeView::Done);
            let (two, second) = one.resume(t2, OutcomeView::Done);
            let (three, third) = two.resume(t3, OutcomeView::Done);
            &&& first == NextView::Perform(OperationView::Save { config: keyed })
            &&& one.actor == daemon.actor
            &&& second == NextView::Perform(OperationView::StartScanner { config: keyed })
            &&& two.actor.config == Some(keyed)
            &&& !two.actor.require_removal
            &&& third == NextView::Perform(OperationView::Publish)
            &&& three.phase == (PhaseView::Publishing { reply: Some(Ok(())) })
            &&& three.actor.scan
            &&& three.actor.config == Some(keyed)
            &&& three.actor.cutoff == t2
            &&& three.actor.snapshot.configured
            &&& three.actor.snapshot.status == "idle"@
            &&& three.actor.snapshot.error == daemon.actor.snapshot.error
            &&& three.actor.snapshot.name == daemon.actor.snapshot.name
            &&& !three.actor.require_removal
            &&& three.actor.adapter == daemon.actor.adapter
        }),
{
}

/// How the exception ends otherwise: without keys the setup fails, with the reason that
/// the device could not be blocked where that is one; keys are stored even where it
/// could not be blocked, and the setup fails after that.
pub proof fn a_setup_that_fails_says_why(
    daemon: DaemonView,
    now: u64,
    later: u64,
    config: ConfigView,
    result: Result<KeysView, Seq<char>>,
    failure: Seq<char>,
)
    requires
        daemon.phase == (PhaseView::Closing { config, result }),
    ensures
        result matches Err(reason) ==> {
            &&& ends_offline(
                daemon.actor,
                now,
                reason,
                Some(reason),
                daemon.resume(now, OutcomeView::Done),
            )
            &&& ends_offline(
                daemon.actor,
                now,
                failure,
                Some(failure),
                daemon.resume(now, OutcomeView::Failed(failure)),
            )
        },
        result matches Ok(keys) ==> {
            let keyed = ConfigView { keys: Some(keys), ..config };
            let (left, next) = daemon.resume(now, OutcomeView::Failed(failure));
            &&& next == NextView::Perform(OperationView::Save { config: keyed })
            &&& ends_offline(
                ActorView { config: Some(keyed), ..left.actor },
                later,
                failure,
                Some(failure),
                left.resume(later, OutcomeView::Done),
            )
        },
{
    let actor = daemon.actor;
    if let Err(reason) = result {
        offline_ends(actor, actor, now, reason, Some(reason));
        offline_ends(actor, actor, now, failure, Some(failure));
    }
    if let Ok(keys) = result {
        let keyed = ActorView {
            config: Some(ConfigView { keys: Some(keys), ..config }),
            ..actor
        };
        offline_ends(keyed, keyed, later, failure, Some(failure));
    }
}

/// A release goes its whole way: the device is blocked and everything about it
/// forgotten, the setting that it had before it was taken over is restored, it is
/// stored that it is no longer under control, and who asked is told that all is well.
/// Everything else that is stored of it stays.
pub proof fn a_release_restores_the_original_setting(
    daemon: DaemonView,
    t0: u64,
    t1: u64,
    t2: u64,
    t3: u64,
    config: ConfigView,
    address: Seq<u8>,
)
    requires
        daemon.actor.adapter,
        daemon.actor.config == Some(config),
        config.managed,
        address::parsed(config.address) == Ok::<Seq<u8>, Seq<char>>(address),
    ensures
        ({
            let (zero, block) = daemon.begin(t0, TriggerView::Command(CommandView::Release));
            let (one, restore) = zero.resume(t1, OutcomeView::Done);
            let (two, save) = one.resume(t2, OutcomeView::Done);
            let (three, publish) = two.resume(t3, OutcomeView::Done);
            &&& block == NextView::Perform(OperationView::Block { device: config.address })
            &&& !zero.actor.scan
            &&& forgets(daemon.actor, zero.actor, t0)
            &&& restore == NextView::Perform(
                OperationView::SetBlocked { address, blocked: config.original_blocked },
            )
            &&& save matches NextView::Perform(OperationView::Save { config: stored }) && {
                &&& !stored.managed
                &&& stored == ConfigView { managed: false, ..config }
                &&& three.actor.config == Some(stored)
            }
            &&& two.actor.config == Some(config)
            &&& publish == NextView::Perform(OperationView::Publish)
            &&& three.phase == (PhaseView::Publishing { reply: Some(Ok(())) })
            &&& !three.actor.require_removal && !three.actor.scan
            &&& !three.actor.snapshot.configured
            &&& three.actor.snapshot.status == "setup_required"@
            &&& three.actor.snapshot.error is None
            &&& three.actor.cutoff == t3
        }),
{
}

/// Where nothing is under control a release has nothing to do, and says that all is
/// well; without an adapter it cannot restore anything, and says so.
pub proof fn a_release_without_a_device(daemon: DaemonView, now: u64)
    ensures
        ({
            let (left, next) = daemon.begin(now, TriggerView::Command(CommandView::Release));
            let reason = "Bluetooth is unavailable; cannot restore original device setting"@;
            &&& !(daemon.actor.config matches Some(config) && config.managed) ==> {
                &&& next == NextView::Perform(OperationView::Publish)
                &&& left.phase == (PhaseView::Publishing { reply: Some(Ok(())) })
                &&& forgets(daemon.actor, left.actor, now)
                &&& shows_rest(left.actor)
                &&& !left.actor.scan
                &&& left.actor.adapter == daemon.actor.adapter
                &&& left.actor.snapshot.error == daemon.actor.snapshot.error
            }
            &&& (daemon.actor.config matches Some(config) && config.managed)
                && !daemon.actor.adapter ==> ends_offline(
                daemon.actor,
                now,
                reason,
                Some(reason),
                (left, next),
            )
        }),
{
    let reason = "Bluetooth is unavailable; cannot restore original device setting"@;
    offline_ends(daemon.actor.unscanned().guarded(now), daemon.actor, now, reason, Some(reason));
}

/// Where it cannot be stored that the device was given up, it is blocked again, and
/// the release fails for the reason that it could not be stored, or, where not even
/// that succeeds, for the reason that it could not be blocked.
pub proof fn a_release_that_is_not_stored_is_taken_back(
    daemon: DaemonView,
    now: u64,
    later: u64,
    address: Seq<u8>,
    config: ConfigView,
    reason: Seq<char>,
    failure: Seq<char>,
)
    requires
        daemon.phase == (PhaseView::Relinquishing { address, config }),
    ensures
        ({
            let (left, next) = daemon.resume(now, OutcomeView::Failed(reason));
            let both = "release save failed and guard could not be restored: "@ + failure;
            &&& next == NextView::Perform(OperationView::SetBlocked { address, blocked: true })
            &&& left.actor == daemon.actor
            &&& ends_offline(
                daemon.actor,
                later,
                reason,
                Some(reason),
                left.resume(later, OutcomeView::Done),
            )
            &&& ends_offline(
                daemon.actor,
                later,
                both,
                Some(both),
                left.resume(later, OutcomeView::Failed(failure)),
            )
        }),
{
    let both = "release save failed and guard could not be restored: "@ + failure;
    offline_ends(daemon.actor, daemon.actor, later, reason, Some(reason));
    offline_ends(daemon.actor, daemon.actor, later, both, Some(both));
}

/// What is asked for and answered is what it is seen as: which device is blocked or
/// unblocked, and what was told of it.
pub proof fn questions_and_answers_are_what_they_are(
    address: [u8; 6],
    blocked: bool,
    config: Config,
    keys: Keys,
)
    ensures
        (Operation::SetBlocked { address, blocked })@ == (OperationView::SetBlocked {
            address: address@,
            blocked,
        }),
        (Operation::Save { config })@ == (OperationView::Save { config: config@ }),
        Outcome::Flag(blocked)@ == OutcomeView::Flag(blocked),
        Outcome::Address(address)@ == OutcomeView::Address(address@),
        config@.original_blocked == config.original_blocked,
        config@.managed == config.managed,
        config@.schema == config.schema,
        config@.address == config.address@,
        config@.adapter == config.adapter@,
        config@.name == config.name@,
        config@.keys == match config.keys {
            Some(keys) => Some(keys@),
            None => None,
        },
        keys@.irk == keys.irk@,
        keys@.enc == keys.enc@,
{
}

} // verus!
