//! What is shown of a device: its ears, its charge and its mode, and what is asked
//! for on their account.
use crate::address;
use crate::bluetooth::EventView;
use crate::conduct::{ends_offline, forgets, shows_rest};
use crate::model::{Battery, Ears, Mode, Snapshot, SnapshotView};
use crate::policy::{
    ActorView, CommandView, DaemonView, NextView, OperationView, OutcomeView, PhaseView,
    TriggerView,
};
use crate::protocol::{self, AdvertisementView, PacketView};
use vstd::prelude::*;

verus! {

/// The ears are shown on their sides: the first one that was reported on the side of
/// the primary bud, the second one on the other side, and none as long as the primary
/// bud is not known.
pub open spec fn on_sides(shown: Ears, primary_left: Option<bool>, reported: Ears) -> bool {
    match primary_left {
        Some(left) => if left {
            shown.0 == reported.0 && shown.1 == reported.1
        } else {
            shown.1 == reported.0 && shown.0 == reported.1
        },
        None => shown.0 is None && shown.1 is None,
    }
}

/// A device that reports that it is worn is connected, and its ears are shown on their
/// sides. The first such report is published before the audio is seen to.
pub proof fn worn_ears_are_shown_on_their_sides(
    daemon: DaemonView,
    now: u64,
    bytes: Seq<u8>,
    ears: Ears,
)
    requires
        protocol::parsed(bytes) == Some(PacketView::Ear(ears)),
        ears.0 == Some(true) || ears.1 == Some(true),
    ensures
        ({
            let (left, next) = daemon.begin(now, TriggerView::Received(Some(bytes)));
            let shown = left.actor.snapshot;
            &&& on_sides(shown.in_ear, daemon.actor.primary_left, ears)
            &&& left.actor == ActorView {
                aap_ears: ears,
                live_ears: true,
                ear_deadline: None,
                snapshot: SnapshotView {
                    connected: true,
                    status: "connected"@,
                    in_ear: shown.in_ear,
                    ..daemon.actor.snapshot
                },
                ..daemon.actor
            }
            &&& next == NextView::Perform(OperationView::Publish)
            &&& left.phase == if daemon.actor.live_ears {
                PhaseView::Publishing { reply: None }
            } else {
                PhaseView::Announcing
            }
        }),
{
}

/// A device that reports that it is not worn is blocked first; then its ears are shown
/// on their sides and nothing else of it. If both buds are out, the next connection is
/// allowed.
pub proof fn ears_that_are_out_are_shown_on_their_sides(
    daemon: DaemonView,
    now: u64,
    bytes: Seq<u8>,
    ears: Ears,
)
    requires
        protocol::parsed(bytes) == Some(PacketView::Ear(ears)),
        !(ears.0 == Some(true) || ears.1 == Some(true)),
    ensures
        ({
            let (left, next) = daemon.begin(now, TriggerView::Received(Some(bytes)));
            let (after, then) = left.resume(now, OutcomeView::Done);
            let (end, last) = if left.phase is Guarding {
                (after, then)
            } else {
                (left, next)
            };
            &&& daemon.actor.adapter && (daemon.actor.config matches Some(config)
                && config.managed) <==> left.phase is Guarding
            &&& left.phase is Guarding ==> (daemon.actor.config matches Some(config) && next
                == NextView::Perform(OperationView::Block { device: config.address }))
            &&& on_sides(end.actor.snapshot.in_ear, daemon.actor.primary_left, ears)
            &&& forgets(
                daemon.actor,
                ActorView {
                    snapshot: SnapshotView { in_ear: (None, None), ..end.actor.snapshot },
                    ..end.actor
                },
                now,
            )
            &&& shows_rest(end.actor)
            &&& end.actor.require_removal == (daemon.actor.require_removal && !(ears.0 == Some(
                false,
            ) && ears.1 == Some(false)))
            &&& end.actor.adapter == daemon.actor.adapter
            &&& end.actor.scan == daemon.actor.scan
            &&& last == NextView::Perform(OperationView::Publish)
            &&& end.phase == (PhaseView::Publishing { reply: None })
        }),
{
}

/// A battery report is shown, and while the device is known to be worn its ears are
/// shown on the sides that the report tells. Nothing else changes.
pub proof fn charges_are_shown_and_tell_the_sides(
    daemon: DaemonView,
    now: u64,
    bytes: Seq<u8>,
    battery: Battery,
    primary_left: Option<bool>,
)
    requires
        protocol::parsed(bytes) == Some(PacketView::Batteries { battery, primary_left }),
    ensures
        ({
            let (left, next) = daemon.begin(now, TriggerView::Received(Some(bytes)));
            let shown = left.actor.snapshot;
            &&& shown.battery == battery
            &&& daemon.actor.live_ears ==> on_sides(
                shown.in_ear,
                primary_left,
                daemon.actor.aap_ears,
            )
            &&& !daemon.actor.live_ears ==> shown.in_ear == daemon.actor.snapshot.in_ear
            &&& left.actor == ActorView {
                primary_left,
                snapshot: SnapshotView {
                    battery,
                    in_ear: shown.in_ear,
                    ..daemon.actor.snapshot
                },
                ..daemon.actor
            }
            &&& next == NextView::Perform(OperationView::Publish)
            &&& left.phase == (PhaseView::Publishing { reply: None })
        }),
{
}

/// It does not matter whether the sides are told before the ears or after them.
pub proof fn sides_may_be_told_first_or_last(
    daemon: DaemonView,
    now: u64,
    report: Seq<u8>,
    bytes: Seq<u8>,
)
    requires
        protocol::parsed(report) is Some && protocol::parsed(report)->0 is Batteries,
        protocol::parsed(bytes) matches Some(PacketView::Ear(ears)) && (ears.0 == Some(true)
            || ears.1 == Some(true)),
    ensures
        ({
            let (told, heard) = (
                TriggerView::Received(Some(report)),
                TriggerView::Received(Some(bytes)),
            );
            daemon.begin(now, told).0.begin(now, heard).0.actor == daemon.begin(
                now,
                heard,
            ).0.begin(now, told).0.actor
        }),
{
}

/// Two sessions that differ in which bud is the primary one show each other's mirror
/// image.
pub proof fn the_other_primary_bud_shows_the_mirror_image(
    daemon: DaemonView,
    now: u64,
    bytes: Seq<u8>,
    left: bool,
)
    requires
        protocol::parsed(bytes) matches Some(PacketView::Ear(ears)) && (ears.0 == Some(true)
            || ears.1 == Some(true)),
    ensures
        ({
            let heard = TriggerView::Received(Some(bytes));
            let one = DaemonView {
                actor: ActorView { primary_left: Some(left), ..daemon.actor },
                ..daemon
            }.begin(now, heard).0.actor.snapshot.in_ear;
            let other = DaemonView {
                actor: ActorView { primary_left: Some(!left), ..daemon.actor },
                ..daemon
            }.begin(now, heard).0.actor.snapshot.in_ear;
            other == (one.1, one.0)
        }),
{
}

/// What the device reports of its mode is what is shown, whether or not anybody asked
/// for it; a request is over exactly when the mode that it was for is reported. Nothing
/// else changes.
pub proof fn reported_modes_are_shown(
    daemon: DaemonView,
    now: u64,
    bytes: Seq<u8>,
    mode: Option<Mode>,
)
    requires
        protocol::parsed(bytes) == Some(PacketView::Mode(mode)),
    ensures
        ({
            let (left, next) = daemon.begin(now, TriggerView::Received(Some(bytes)));
            &&& left.actor.snapshot == SnapshotView { mode, ..daemon.actor.snapshot }
            &&& left.actor == ActorView {
                snapshot: left.actor.snapshot,
                pending_mode: left.actor.pending_mode,
                ..daemon.actor
            }
            &&& match daemon.actor.pending_mode {
                Some((wanted, _)) => if mode == Some(wanted) {
                    left.actor.pending_mode is None
                } else {
                    left.actor.pending_mode == daemon.actor.pending_mode
                },
                None => left.actor.pending_mode is None,
            }
            &&& next == NextView::Perform(OperationView::Publish)
            &&& left.phase == (PhaseView::Publishing { reply: None })
        }),
{
}

/// Packets that say nothing, and keys that nobody asked for, change nothing.
pub proof fn other_packets_change_nothing(daemon: DaemonView, now: u64, bytes: Seq<u8>)
    requires
        bytes.len() > 0,
        protocol::parsed(bytes) matches Some(packet) ==> packet is Keys,
    ensures
        daemon.begin(now, TriggerView::Received(Some(bytes))) == (
            DaemonView { phase: PhaseView::Publishing { reply: None }, ..daemon },
            NextView::Perform(OperationView::Publish),
        ),
{
}

/// The life of a request for a mode: it is sent over a channel to a device that is
/// connected and worn; once it was sent, who asked is told that all is well, the error
/// is taken back, and the device has five seconds to report the mode, unless it is the
/// one that is shown already. Where it cannot be sent, who asked is told why, and that
/// is shown; the link stays.
pub proof fn modes_are_asked_for(
    daemon: DaemonView,
    now: u64,
    later: u64,
    mode: Mode,
    failure: Seq<char>,
)
    ensures
        ({
            let actor = daemon.actor;
            let worn = actor.snapshot.in_ear.0 == Some(true) || actor.snapshot.in_ear.1 == Some(
                true,
            );
            let (left, next) = daemon.begin(now, TriggerView::Command(CommandView::Mode(mode)));
            let (sent, publish) = left.resume(later, OutcomeView::Done);
            let (unsent, complain) = left.resume(later, OutcomeView::Failed(failure));
            if actor.snapshot.connected && actor.live_ears && worn && actor.socket {
                &&& next == NextView::Perform(OperationView::SendMode { mode })
                &&& left.actor == actor
                &&& publish == NextView::Perform(OperationView::Publish)
                &&& sent.phase == (PhaseView::Publishing { reply: Some(Ok(())) })
                &&& sent.actor == ActorView {
                    pending_mode: if actor.snapshot.mode == Some(mode) {
                        None
                    } else {
                        Some((mode, later + 5_000_000_000))
                    },
                    snapshot: SnapshotView { error: None, ..actor.snapshot },
                    ..actor
                }
                &&& complain == NextView::Perform(OperationView::Publish)
                &&& unsent.phase == (PhaseView::Publishing { reply: Some(Err(failure)) })
                &&& unsent.actor == ActorView {
                    snapshot: SnapshotView { error: Some(failure), ..actor.snapshot },
                    ..actor
                }
            } else {
                let reason = if actor.snapshot.connected && actor.live_ears && worn {
                    "AAP control channel is unavailable"@
                } else {
                    "noise control requires a live in-ear connection"@
                };
                &&& next == NextView::Perform(OperationView::Publish)
                &&& left.phase == (PhaseView::Publishing { reply: Some(Err(reason)) })
                &&& left.actor == ActorView {
                    snapshot: SnapshotView { error: Some(reason), ..actor.snapshot },
                    ..actor
                }
            }
        }),
{
}

/// A mode that was asked for and not reported by its deadline is given up, which is
/// shown; before that nothing is.
pub proof fn modes_are_waited_for(daemon: DaemonView, now: u64, mode: Mode, deadline: int)
    requires
        daemon.actor.pending_mode == Some((mode, deadline)),
        daemon.actor.ear_deadline is None,
        daemon.actor.maintenance matches Some(then) ==> now < then + 5_000_000_000,
    ensures
        ({
            let (left, next) = daemon.begin(now, TriggerView::Tick);
            &&& left.actor.snapshot.mode == daemon.actor.snapshot.mode
            &&& next == NextView::Perform(OperationView::Publish)
            &&& if now >= deadline {
                &&& left.actor.pending_mode is None
                &&& left.actor.snapshot.error == Some(
                    "Device did not confirm the requested listening mode; showing its reported mode"@,
                )
            } else {
                &&& left.actor.pending_mode == daemon.actor.pending_mode
                &&& left.actor.snapshot.error == daemon.actor.snapshot.error
            }
        }),
{
}

/// Time alone changes no error that is shown, as long as no mode is waited for.
pub proof fn time_shows_no_error(daemon: DaemonView, now: u64)
    requires
        daemon.actor.pending_mode is None,
        daemon.actor.ear_deadline matches Some(deadline) ==> now < deadline,
    ensures
        daemon.begin(now, TriggerView::Tick).0.actor.snapshot.error == daemon.actor.snapshot.error,
        daemon.begin(now, TriggerView::Tick).0.actor.snapshot.mode == daemon.actor.snapshot.mode,
        daemon.begin(now, TriggerView::Tick).0.actor.pending_mode is None,
{
}

impl ActorView {
    /// An advertisement that arrives now counts: it came after what was last forgotten,
    /// at most three seconds ago, and what it says is known with the stored key.
    pub open spec fn reads(
        self,
        now: u64,
        data: Seq<u8>,
        at: u64,
        seen: AdvertisementView,
    ) -> bool {
        &&& at > self.cutoff
        &&& now <= at + 3_000_000_000
        &&& !self.live_ears
        &&& self.config matches Some(config) && config.managed && (config.keys matches Some(keys)
            && protocol::advertised_to(data, keys.enc) == Some(seen))
    }
}

/// What an advertisement says is shown: the ears and the charge, on their sides. One
/// that was cached changes nothing else.
pub proof fn advertisements_are_shown(
    daemon: DaemonView,
    now: u64,
    data: Seq<u8>,
    at: u64,
    fresh: bool,
    seen: AdvertisementView,
)
    requires
        daemon.actor.reads(now, data, at, seen),
    ensures
        ({
            let trigger = TriggerView::Event(EventView::Advertisement { data, at, fresh });
            let (left, next) = daemon.begin(now, trigger);
            let worn = seen.ears.0 == Some(true) || seen.ears.1 == Some(true);
            let out = seen.ears.0 == Some(false) && seen.ears.1 == Some(false);
            let linked = daemon.actor.connection || daemon.actor.socket;
            let shown = ActorView {
                last_ble: if fresh {
                    Some(at)
                } else {
                    daemon.actor.last_ble
                },
                snapshot: SnapshotView {
                    in_ear: seen.ears,
                    battery: seen.battery,
                    ..daemon.actor.snapshot
                },
                ..daemon.actor
            };
            &&& (!fresh || (worn && (linked || daemon.actor.require_removal))) ==> left.actor
                == shown && next == NextView::Perform(OperationView::Publish) && left.phase == (
            PhaseView::Publishing { reply: None })
            &&& (fresh && !worn && !linked) ==> left.actor == ActorView {
                require_removal: daemon.actor.require_removal && !out,
                ..shown
            } && next == NextView::Perform(OperationView::Publish) && left.phase == (
            PhaseView::Publishing { reply: None })
        }),
{
}

/// A fresh advertisement of a worn device, without a link and after both buds were
/// out, leads to a connection: the device is unblocked, and once it is, a connection of
/// the present generation is made. From then on both buds have to come out before the
/// next one.
pub proof fn worn_devices_are_connected(
    daemon: DaemonView,
    now: u64,
    later: u64,
    data: Seq<u8>,
    at: u64,
    seen: AdvertisementView,
    address: Seq<u8>,
)
    requires
        daemon.actor.reads(now, data, at, seen),
        seen.ears.0 == Some(true) || seen.ears.1 == Some(true),
        daemon.actor.adapter,
        !daemon.actor.connection,
        !daemon.actor.socket,
        !daemon.actor.require_removal,
        daemon.actor.config matches Some(config) && address::parsed(config.address) == Ok::<
            Seq<u8>,
            Seq<char>,
        >(address),
    ensures
        ({
            let trigger = TriggerView::Event(EventView::Advertisement { data, at, fresh: true });
            let (left, next) = daemon.begin(now, trigger);
            let (end, last) = left.resume(later, OutcomeView::Done);
            &&& next == NextView::Perform(OperationView::SetBlocked { address, blocked: false })
            &&& left.actor.require_removal
            &&& left.actor.snapshot.in_ear == seen.ears
            &&& left.actor.snapshot.battery == seen.battery
            &&& left.actor.snapshot.status == daemon.actor.snapshot.status
            &&& daemon.actor.config matches Some(config) && last == NextView::Perform(
                OperationView::StartConnection { config, generation: daemon.actor.generation },
            )
            &&& end.phase is Connecting
            &&& end.actor == ActorView {
                connection: true,
                require_removal: true,
                last_ble: Some(at),
                snapshot: SnapshotView {
                    in_ear: seen.ears,
                    battery: seen.battery,
                    status: "connecting"@,
                    error: None,
                    ..daemon.actor.snapshot
                },
                ..daemon.actor
            }
        }),
{
}

/// A fresh advertisement of a device that is not worn, or one that cannot be read,
/// ends a link that has not been confirmed: the device is blocked, and then its ears
/// are shown as far as they are known.
pub proof fn unworn_devices_are_disconnected(
    daemon: DaemonView,
    now: u64,
    data: Seq<u8>,
    at: u64,
    keys: crate::storage::KeysView,
)
    requires
        daemon.actor.connection || daemon.actor.socket,
        !daemon.actor.live_ears,
        daemon.actor.adapter,
        daemon.actor.config matches Some(config) && config.managed && config.keys == Some(keys),
        at > daemon.actor.cutoff,
        now <= at + 3_000_000_000,
        protocol::advertised_to(data, keys.enc) matches Some(seen) ==> !(seen.ears.0 == Some(true)
            || seen.ears.1 == Some(true)),
    ensures
        ({
            let trigger = TriggerView::Event(EventView::Advertisement { data, at, fresh: true });
            let (left, next) = daemon.begin(now, trigger);
            let (end, last) = left.resume(now, OutcomeView::Done);
            let seen = protocol::advertised_to(data, keys.enc);
            &&& daemon.actor.config matches Some(config) && next == NextView::Perform(
                OperationView::Block { device: config.address },
            )
            &&& forgets(daemon.actor, left.actor, now)
            &&& end.actor.snapshot.in_ear == match seen {
                Some(seen) => seen.ears,
                None => (None, None),
            }
            &&& end.actor == ActorView {
                snapshot: SnapshotView {
                    in_ear: end.actor.snapshot.in_ear,
                    ..left.actor.snapshot
                },
                ..left.actor
            }
            &&& end.actor.require_removal == (daemon.actor.require_removal && !(seen matches Some(
                seen,
            ) && seen.ears.0 == Some(false) && seen.ears.1 == Some(false)))
            &&& last == NextView::Perform(OperationView::Publish)
            &&& end.phase == (PhaseView::Publishing { reply: None })
        }),
{
}

/// Advertisements change nothing where they do not count, where no key is stored to
/// read them with, or where the device is not under control.
pub proof fn other_advertisements_change_nothing(
    daemon: DaemonView,
    now: u64,
    data: Seq<u8>,
    at: u64,
    fresh: bool,
)
    requires
        ({
            ||| at <= daemon.actor.cutoff
            ||| now > at + 3_000_000_000
            ||| daemon.actor.live_ears
            ||| !(daemon.actor.config matches Some(config) && config.managed && config.keys is Some)
            ||| (daemon.actor.config matches Some(config) && (config.keys matches Some(keys)
                && protocol::advertised_to(data, keys.enc) is None)) && (!fresh || !(
            daemon.actor.connection || daemon.actor.socket))
        }),
    ensures
        daemon.begin(now, TriggerView::Event(EventView::Advertisement { data, at, fresh })) == (
            DaemonView { phase: PhaseView::Publishing { reply: None }, ..daemon },
            NextView::Perform(OperationView::Publish),
        ),
{
}

/// A connection that is made while the buds are still shown as worn opens the channel,
/// and the device has five seconds to confirm that it is worn; until then it is not
/// shown as connected. If the buds are out by then, it is blocked again.
pub proof fn connections_await_their_confirmation(daemon: DaemonView, now: u64)
    ensures
        ({
            let actor = daemon.actor;
            let worn = actor.snapshot.in_ear.0 == Some(true) || actor.snapshot.in_ear.1 == Some(
                true,
            );
            let (left, next) = daemon.begin(
                now,
                TriggerView::Event(
                    EventView::Ready { generation: actor.generation, failure: None },
                ),
            );
            if worn {
                &&& left.actor == ActorView {
                    connection: false,
                    socket: true,
                    ear_deadline: Some(now + 5_000_000_000),
                    ..actor
                }
                &&& next == NextView::Perform(OperationView::Publish)
                &&& left.phase == (PhaseView::Publishing { reply: None })
            } else {
                &&& forgets(actor, left.actor, now)
                &&& actor.adapter && (actor.config matches Some(config) && config.managed) ==> (
                actor.config matches Some(config) && next == NextView::Perform(
                    OperationView::Block { device: config.address },
                ) && left.phase == (PhaseView::Guarding { ears: None }))
            }
        }),
{
}

/// Once a confirmed device was announced, its audio is arranged; nothing waits for
/// that.
pub proof fn audio_is_arranged_for_the_device(daemon: DaemonView, now: u64)
    ensures
        daemon.phase is Announcing ==> {
            let (left, next) = daemon.resume(now, OutcomeView::Done);
            match daemon.actor.config {
                Some(config) => {
                    &&& next == NextView::Perform(
                        OperationView::StartAudio {
                            device: config.address,
                            generation: daemon.actor.generation,
                        },
                    )
                    &&& left == DaemonView {
                        actor: ActorView { audio: true, ..daemon.actor },
                        phase: PhaseView::Preferring,
                    }
                },
                None => left.actor == daemon.actor && next == NextView::Perform(
                    OperationView::Publish,
                ),
            }
        },
        (daemon.phase is Preferring || daemon.phase is Connecting) ==> daemon.resume(
            now,
            OutcomeView::Done,
        ) == (
            DaemonView { phase: PhaseView::Publishing { reply: None }, ..daemon },
            NextView::Perform(OperationView::Publish),
        ),
{
}

/// A warning about the audio of the present session is shown in place of an error, and
/// changes nothing else.
pub proof fn audio_warnings_are_shown(daemon: DaemonView, now: u64, message: Seq<char>)
    requires
        daemon.actor.live_ears,
    ensures
        daemon.begin(
            now,
            TriggerView::Event(
                EventView::AudioWarning { generation: daemon.actor.generation, message },
            ),
        ) == (
            DaemonView {
                actor: ActorView {
                    snapshot: SnapshotView { error: Some(message), ..daemon.actor.snapshot },
                    ..daemon.actor
                },
                phase: PhaseView::Publishing { reply: None },
            },
            NextView::Perform(OperationView::Publish),
        ),
{
}

/// A snapshot, an advertisement and a packet say of the two ears what they hold, the
/// left or the first one first, and of the charge and the mode what they hold.
pub proof fn sides_stand_in_their_order(
    snapshot: Snapshot,
    seen: protocol::Advertisement,
    ears: [Option<bool>; 2],
)
    ensures
        snapshot@.in_ear.0 == snapshot.in_ear[0] && snapshot@.in_ear.1 == snapshot.in_ear[1],
        snapshot@.battery == snapshot.battery,
        snapshot@.mode == snapshot.mode,
        snapshot@.connected == snapshot.connected,
        snapshot@.configured == snapshot.configured,
        snapshot@.status == snapshot.status@,
        snapshot@.name == snapshot.name@,
        snapshot@.error == match snapshot.error {
            Some(error) => Some(error@),
            None => None,
        },
        seen@.ears.0 == seen.ears[0] && seen@.ears.1 == seen.ears[1],
        seen@.battery == seen.battery,
        protocol::Packet::Ear(ears)@ == PacketView::Ear((ears[0], ears[1])),
{
}

/// A worn device without an adapter to connect it with is not connected: that there is
/// none is shown.
pub proof fn connections_need_an_adapter(
    daemon: DaemonView,
    now: u64,
    data: Seq<u8>,
    at: u64,
    seen: AdvertisementView,
)
    requires
        daemon.actor.reads(now, data, at, seen),
        seen.ears.0 == Some(true) || seen.ears.1 == Some(true),
        !daemon.actor.adapter,
        !daemon.actor.connection,
        !daemon.actor.socket,
        !daemon.actor.require_removal,
    ensures
        ends_offline(
            daemon.actor,
            now,
            "Bluetooth adapter is unavailable"@,
            None,
            daemon.begin(
                now,
                TriggerView::Event(EventView::Advertisement { data, at, fresh: true }),
            ),
        ),
{
}

} // verus!
