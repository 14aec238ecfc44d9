//! How the daemon goes on, in terms of what reached it and what it holds.
use crate::bluetooth::EventView;
use crate::model::{Cell, SnapshotView};
use crate::policy::{
    started, ActorView, AfterView, DaemonView, NextView, OperationView, OutcomeView, PhaseView,
    ReasonView, TriggerView, TurnView,
};
use crate::storage::ConfigView;
use vstd::prelude::*;

verus! {

/// How the adapter is initialized, up to the paired devices: the session, the adapter
/// that the stored configuration names, and the block of a device under control. Once
/// the adapter is found, all that was observed before is forgotten, and the device is
/// shown as it is at rest.
pub proof fn the_stored_adapter_is_looked_for(daemon: DaemonView, now: u64, reason: ReasonView)
    ensures
        daemon.phase == PhaseView::Opening(reason) ==> {
            let (left, next) = daemon.resume(now, OutcomeView::Done);
            &&& left == DaemonView { phase: PhaseView::Finding(reason), ..daemon }
            &&& next matches NextView::Perform(OperationView::FindAdapter { adapter }) && match (
                daemon.actor.config,
                adapter,
            ) {
                (Some(config), Some(name)) => name == config.adapter,
                (None, None) => true,
                _ => false,
            }
        },
        daemon.phase == PhaseView::Finding(reason) ==> {
            let (left, next) = daemon.resume(now, OutcomeView::Done);
            &&& left.actor.adapter && left.actor.session
            &&& forgets(daemon.actor, left.actor, now)
            &&& shows_rest(left.actor)
            &&& left.actor.scan == daemon.actor.scan
            &&& left.actor.require_removal == daemon.actor.require_removal
            &&& left.actor.snapshot.error == daemon.actor.snapshot.error
            &&& match daemon.actor.config {
                Some(config) => if config.managed {
                    left.phase == PhaseView::Protecting(reason) && next == NextView::Perform(
                        OperationView::Block { device: config.address },
                    )
                } else {
                    left.phase == PhaseView::Listing(reason) && next == NextView::Perform(
                        OperationView::ListPaired,
                    )
                },
                None => left.phase == PhaseView::Listing(reason) && next == NextView::Perform(
                    OperationView::ListPaired,
                ),
            }
        },
        daemon.phase == PhaseView::Protecting(reason) ==> daemon.resume(now, OutcomeView::Done)
            == (
            DaemonView { phase: PhaseView::Listing(reason), ..daemon },
            NextView::Perform(OperationView::ListPaired),
        ),
{
}

/// The paired devices are shown as they were listed, when the adapter is initialized
/// and whenever it is looked after.
pub proof fn paired_devices_are_shown(
    daemon: DaemonView,
    now: u64,
    devices: Seq<crate::model::PairedDeviceView>,
)
    requires
        daemon.phase is Listing || daemon.phase is TickPaired,
    ensures
        ({
            let (left, next) = daemon.resume(now, OutcomeView::Devices(devices));
            &&& left.actor.snapshot.paired_devices == devices
            &&& left.actor == ActorView {
                snapshot: SnapshotView {
                    paired_devices: devices,
                    ..daemon.actor.snapshot
                },
                ..daemon.actor
            }
            &&& match daemon.phase {
                PhaseView::Listing(reason) => left.phase == PhaseView::Powering(reason) && next
                    == NextView::Perform(OperationView::QueryPowered),
                _ => left.phase == (PhaseView::Publishing { reply: None }) && next
                    == NextView::Perform(OperationView::Publish),
            }
        }),
{
}

/// What the daemon shows and does when the adapter is initialized: the error that is
/// shown is that both buds have to come out, or none; setup goes on with its device,
/// and otherwise what is known is published.
pub open spec fn goes_on(before: ActorView, reason: ReasonView, scan: bool, turn: TurnView) -> bool {
    let (left, next) = turn;
    &&& left.actor == ActorView {
        scan,
        snapshot: SnapshotView {
            error: left.actor.snapshot.error,
            ..before.snapshot
        },
        ..before
    }
    &&& before.require_removal <==> left.actor.snapshot.error is Some
    &&& before.require_removal ==> left.actor.snapshot.error == Some(
        "Connection interrupted; remove both buds before retrying"@,
    )
    &&& match reason {
        ReasonView::Setup(address) => left.phase == (PhaseView::SetupPower { address }) && next
            == NextView::Perform(OperationView::QueryPowered),
        _ => left.phase == (PhaseView::Publishing { reply: None }) && next == NextView::Perform(
            OperationView::Publish,
        ),
    }
}

/// Whenever an adapter that is being initialized is powered, for whatever reason it
/// was begun, advertisements of a device that is under control and whose keys are
/// known are looked for, and of no other; only then the daemon goes on.
pub proof fn a_known_device_is_scanned_for(daemon: DaemonView, now: u64, reason: ReasonView)
    ensures
        daemon.phase == PhaseView::Powering(reason) ==> {
            let (left, next) = daemon.resume(now, OutcomeView::Flag(true));
            match daemon.actor.config {
                Some(config) => if config.managed && config.keys is Some {
                    &&& next == NextView::Perform(OperationView::StartScanner { config })
                    &&& left == DaemonView { phase: PhaseView::Scanning(reason), ..daemon }
                } else {
                    goes_on(daemon.actor, reason, daemon.actor.scan, (left, next))
                },
                None => goes_on(daemon.actor, reason, daemon.actor.scan, (left, next)),
            }
        },
        daemon.phase == PhaseView::Scanning(reason) ==> goes_on(
            daemon.actor,
            reason,
            true,
            daemon.resume(now, OutcomeView::Done),
        ),
{
}

/// The daemon has published that it is offline for a reason, and owes `reply`.
pub open spec fn shows_offline(
    before: ActorView,
    reason: Seq<char>,
    reply: Option<Seq<char>>,
    turn: TurnView,
) -> bool {
    let (left, next) = turn;
    &&& next == NextView::Perform(OperationView::Publish)
    &&& left.phase == PhaseView::Publishing {
        reply: match reply {
            Some(failure) => Some(Err(failure)),
            None => None,
        },
    }
    &&& !left.actor.adapter && !left.actor.session && !left.actor.scan
    &&& !left.actor.connection && !left.actor.socket && !left.actor.audio
    &&& left.actor.config == before.config
    &&& left.actor.require_removal == before.require_removal
    &&& left.actor.snapshot.status == "error"@
    &&& left.actor.snapshot.error == Some(reason)
    &&& !left.actor.snapshot.connected
    &&& left.actor.snapshot.name == before.snapshot.name
    &&& left.actor.snapshot.paired_devices == before.snapshot.paired_devices
}

/// The device is blocked if that is possible, the adapter is given up, and the
/// reason is shown; who asked for something is told why it failed.
pub open spec fn ends_offline(
    before: ActorView,
    now: u64,
    reason: Seq<char>,
    reply: Option<Seq<char>>,
    turn: TurnView,
) -> bool {
    let (left, next) = turn;
    if before.adapter && (before.config matches Some(config) && config.managed) {
        &&& before.config matches Some(config) && next == NextView::Perform(
            OperationView::Block { device: config.address },
        )
        &&& shows_offline(before, reason, reply, left.resume(now, OutcomeView::Done))
        &&& forall|failure: Seq<char>|
            shows_offline(
                before,
                reason + "; guard could not be confirmed: "@ + failure,
                reply,
                #[trigger] left.resume(now, OutcomeView::Failed(failure)),
            )
    } else {
        shows_offline(before, reason, reply, turn)
    }
}

/// However it is come to, going offline ends in that way.
pub proof fn offline_ends(
    actor: ActorView,
    before: ActorView,
    now: u64,
    reason: Seq<char>,
    reply: Option<Seq<char>>,
)
    requires
        actor.config == before.config,
        actor.adapter == before.adapter,
        actor.require_removal == before.require_removal,
        actor.snapshot.name == before.snapshot.name,
        actor.snapshot.paired_devices == before.snapshot.paired_devices,
    ensures
        reply is None ==> ends_offline(before, now, reason, reply, actor.lose(now, reason)),
        reply matches Some(failure) ==> ends_offline(
            before,
            now,
            reason,
            reply,
            actor.offline(now, reason, AfterView::Reply(failure)),
        ),
{
}

/// An adapter that cannot be initialized is given up, and why is shown; a setup that
/// waited for it is told.
pub proof fn an_adapter_that_fails_is_given_up(
    daemon: DaemonView,
    now: u64,
    reason: ReasonView,
    failure: Seq<char>,
)
    ensures
        ({
            let reply = if reason is Setup {
                Some(failure)
            } else {
                None
            };
            let failed = daemon.resume(now, OutcomeView::Failed(failure));
            &&& daemon.phase == PhaseView::Opening(reason) || daemon.phase == PhaseView::Finding(
                reason,
            ) || daemon.phase == PhaseView::Protecting(reason) || daemon.phase
                == PhaseView::Listing(reason) || daemon.phase == PhaseView::Powering(reason)
                || daemon.phase == PhaseView::Scanning(reason) ==> ends_offline(
                daemon.actor,
                now,
                failure,
                reply,
                failed,
            )
        }),
        ({
            let off = "Bluetooth adapter is powered off"@;
            let reply = if reason is Setup {
                Some(off)
            } else {
                None
            };
            daemon.phase == PhaseView::Powering(reason) ==> ends_offline(
                daemon.actor,
                now,
                off,
                reply,
                daemon.resume(now, OutcomeView::Flag(false)),
            )
        }),
{
    let off = "Bluetooth adapter is powered off"@;
    offline_ends(daemon.actor, daemon.actor, now, failure, None);
    offline_ends(daemon.actor, daemon.actor, now, failure, Some(failure));
    offline_ends(daemon.actor, daemon.actor, now, off, None);
    offline_ends(daemon.actor, daemon.actor, now, off, Some(off));
}

/// A failure while the device is served is shown, after the device was blocked and
/// the adapter given up.
pub proof fn failures_end_offline(daemon: DaemonView, now: u64, failure: Seq<char>)
    ensures
        ends_offline(
            daemon.actor,
            now,
            failure,
            None,
            daemon.begin(now, TriggerView::Event(EventView::Failure(failure))),
        ),
        ends_offline(
            daemon.actor,
            now,
            failure,
            None,
            daemon.begin(
                now,
                TriggerView::Event(
                    EventView::Ready {
                        generation: daemon.actor.generation,
                        failure: Some(failure),
                    },
                ),
            ),
        ),
        (daemon.phase is Unblocking || daemon.phase is Guarding || daemon.phase is TickPower
            || daemon.phase is TickPaired) ==> ends_offline(
            daemon.actor,
            now,
            failure,
            None,
            daemon.resume(now, OutcomeView::Failed(failure)),
        ),
        daemon.phase is TickPower ==> ends_offline(
            daemon.actor,
            now,
            "Bluetooth adapter is powered off"@,
            None,
            daemon.resume(now, OutcomeView::Flag(false)),
        ),
        daemon.phase is Losing ==> ends_offline(
            daemon.actor,
            now,
            "AAP link lost; guard failed: "@ + failure,
            None,
            daemon.resume(now, OutcomeView::Failed(failure)),
        ),
{
    let actor = daemon.actor;
    offline_ends(actor, actor, now, failure, None);
    offline_ends(ActorView { connection: false, ..actor }, actor, now, failure, None);
    offline_ends(actor, actor, now, "Bluetooth adapter is powered off"@, None);
    offline_ends(actor, actor, now, "AAP link lost; guard failed: "@ + failure, None);
}

/// Nothing that was observed is left: no link, no ears, no charge, no mode, and no
/// request for one. What still arrives from before `now` does not count.
pub open spec fn forgets(before: ActorView, after: ActorView, now: u64) -> bool {
    let nothing = Cell { percent: None, charging: None };
    &&& !after.connection && !after.socket && !after.audio && !after.live_ears
    &&& !after.snapshot.connected
    &&& after.snapshot.in_ear.0 is None && after.snapshot.in_ear.1 is None
    &&& after.snapshot.battery.left == nothing
    &&& after.snapshot.battery.right == nothing
    &&& after.snapshot.battery.case == nothing
    &&& after.snapshot.mode is None
    &&& after.pending_mode is None
    &&& after.primary_left is None
    &&& after.aap_ears.0 is None && after.aap_ears.1 is None
    &&& after.last_ble is None
    &&& after.ear_deadline is None
    &&& after.cutoff == now
    &&& after.generation == (before.generation + 1) % 0x1_0000_0000_0000_0000
    &&& after.snapshot.name == before.snapshot.name
    &&& after.snapshot.paired_devices == before.snapshot.paired_devices
    &&& after.maintenance == before.maintenance
    &&& after.config == before.config
}

/// The device is shown as idle if it is under control and its keys are known, and as
/// one that has to be set up if not.
pub open spec fn shows_rest(actor: ActorView) -> bool {
    let known = actor.config matches Some(config) && config.managed && config.keys is Some;
    &&& actor.snapshot.configured == known
    &&& actor.snapshot.status == if known {
        "idle"@
    } else {
        "setup_required"@
    }
}

/// Whatever ends a link forgets all that was observed, and blocks the device before
/// anything else: a link or an unblocking that someone else made, a channel that is
/// gone, the end of the daemon.
pub proof fn what_ends_a_link_forgets(daemon: DaemonView, now: u64, trigger: TriggerView)
    requires
        match trigger {
            TriggerView::Event(EventView::Connected(connected)) => connected != (
            daemon.actor.connection || daemon.actor.socket),
            TriggerView::Event(EventView::Blocked(blocked)) => !blocked
                && !daemon.actor.connection && !daemon.actor.socket,
            TriggerView::Received(bytes) => bytes is None || bytes->0.len() == 0,
            TriggerView::Shutdown => true,
            _ => false,
        },
    ensures
        ({
            let (left, next) = daemon.begin(now, trigger);
            &&& forgets(daemon.actor, left.actor, now)
            &&& shows_rest(left.actor)
            &&& left.actor.adapter == daemon.actor.adapter
            &&& left.actor.scan == (daemon.actor.scan && !(trigger is Shutdown))
            &&& left.actor.require_removal == daemon.actor.require_removal
            &&& left.actor.snapshot.error == daemon.actor.snapshot.error
            &&& if daemon.actor.adapter && (daemon.actor.config matches Some(config)
                && config.managed) {
                daemon.actor.config matches Some(config) && next == NextView::Perform(
                    OperationView::Block { device: config.address },
                )
            } else if trigger is Shutdown {
                next == NextView::Stop { failure: None }
            } else {
                next == NextView::Perform(OperationView::Publish) && left.phase == (
                PhaseView::Publishing { reply: None })
            }
        }),
{
}

/// Once the device is blocked that is published, and the end of the daemon reports
/// how the block went.
pub proof fn a_block_is_published(daemon: DaemonView, now: u64, failure: Seq<char>)
    ensures
        (daemon.phase is Losing || daemon.phase == (PhaseView::Guarding { ears: None }))
            ==> daemon.resume(now, OutcomeView::Done) == (
            DaemonView { phase: PhaseView::Publishing { reply: None }, ..daemon },
            NextView::Perform(OperationView::Publish),
        ),
        daemon.phase is Stopping ==> {
            &&& daemon.resume(now, OutcomeView::Done) == (
                DaemonView { phase: PhaseView::Stopped, ..daemon },
                NextView::Stop { failure: None },
            )
            &&& daemon.resume(now, OutcomeView::Failed(failure)) == (
                DaemonView { phase: PhaseView::Stopped, ..daemon },
                NextView::Stop { failure: Some(failure) },
            )
        },
{
}

/// Events that are as they should be change nothing: that a linked device is
/// connected, that one without a link is not, and that it is blocked.
pub proof fn expected_events_change_nothing(daemon: DaemonView, now: u64, trigger: TriggerView)
    requires
        match trigger {
            TriggerView::Event(EventView::Connected(connected)) => connected == (
            daemon.actor.connection || daemon.actor.socket),
            TriggerView::Event(EventView::Blocked(blocked)) => blocked || daemon.actor.connection
                || daemon.actor.socket,
            TriggerView::Event(EventView::Ready { generation, .. }) => generation
                != daemon.actor.generation,
            TriggerView::Event(EventView::AudioWarning { generation, .. }) => generation
                != daemon.actor.generation || !daemon.actor.live_ears,
            TriggerView::Event(EventView::Advertisement { at, .. }) => at <= daemon.actor.cutoff
                || daemon.actor.live_ears,
            _ => false,
        },
    ensures
        daemon.begin(now, trigger) == (
            DaemonView { phase: PhaseView::Publishing { reply: None }, ..daemon },
            NextView::Perform(OperationView::Publish),
        ),
{
}

/// What came before a link ended is ignored after it: an observation of that time,
/// and the end of the connection that was being made.
pub proof fn what_came_before_is_ignored(
    daemon: DaemonView,
    now: u64,
    later: u64,
    trigger: TriggerView,
    old: TriggerView,
)
    requires
        match trigger {
            TriggerView::Event(EventView::Connected(connected)) => connected != (
            daemon.actor.connection || daemon.actor.socket),
            TriggerView::Received(None) => true,
            _ => false,
        },
        match old {
            TriggerView::Event(EventView::Advertisement { at, .. }) => at <= now,
            TriggerView::Event(EventView::Ready { generation, .. }) => generation
                == daemon.actor.generation,
            TriggerView::Event(EventView::AudioWarning { generation, .. }) => generation
                == daemon.actor.generation,
            _ => false,
        },
    ensures
        ({
            let left = DaemonView {
                phase: PhaseView::Idle,
                ..daemon.begin(now, trigger).0
            };
            let (after, next) = left.begin(later, old);
            after.actor == left.actor && next == NextView::Perform(OperationView::Publish)
        }),
{
    what_ends_a_link_forgets(daemon, now, trigger);
    let left = DaemonView { phase: PhaseView::Idle, ..daemon.begin(now, trigger).0 };
    expected_events_change_nothing(left, later, old);
}

/// Whatever was published, the daemon waits for what happens next and hands over the
/// reply; the time until it looks after the adapter runs from the first time.
pub proof fn publishing_ends_a_turn(
    daemon: DaemonView,
    now: u64,
    reply: Option<Result<(), Seq<char>>>,
)
    requires
        daemon.phase == (PhaseView::Publishing { reply }),
    ensures
        ({
            let (left, next) = daemon.resume(now, OutcomeView::Done);
            &&& left.phase is Idle
            &&& next == NextView::Wait { reply }
            &&& left.actor == ActorView { maintenance: left.actor.maintenance, ..daemon.actor }
            &&& left.actor.maintenance == if daemon.actor.maintenance is Some {
                daemon.actor.maintenance
            } else {
                Some(now)
            }
        }),
{
}

/// Five seconds after it was last looked after the adapter is looked after again: one
/// that is held is asked whether it is powered, and one that is not is initialized.
/// Until then nothing but time passes.
pub proof fn the_adapter_is_looked_after(daemon: DaemonView, now: u64, then: u64)
    requires
        daemon.actor.maintenance == Some(then),
        daemon.actor.ear_deadline matches Some(deadline) ==> now < deadline,
    ensures
        ({
            let (left, next) = daemon.begin(now, TriggerView::Tick);
            &&& now >= then + 5_000_000_000 ==> {
                &&& left.actor.maintenance == Some(now)
                &&& daemon.actor.adapter ==> left.phase is TickPower && next
                    == NextView::Perform(OperationView::QueryPowered)
                &&& !daemon.actor.adapter ==> left.phase == PhaseView::Opening(
                    ReasonView::Maintenance,
                ) && next == NextView::Perform(OperationView::OpenSession)
            }
            &&& now < then + 5_000_000_000 ==> {
                &&& left.actor.maintenance == Some(then)
                &&& left.phase == (PhaseView::Publishing { reply: None })
                &&& next == NextView::Perform(OperationView::Publish)
            }
            &&& left.actor.adapter == daemon.actor.adapter
            &&& left.actor.session == daemon.actor.session
            &&& left.actor.scan == daemon.actor.scan
            &&& left.actor.connection == daemon.actor.connection
            &&& left.actor.socket == daemon.actor.socket
            &&& left.actor.live_ears == daemon.actor.live_ears
            &&& left.actor.require_removal == daemon.actor.require_removal
            &&& left.actor.generation == daemon.actor.generation
            &&& left.actor.cutoff == daemon.actor.cutoff
            &&& left.actor.snapshot.status == daemon.actor.snapshot.status
            &&& left.actor.snapshot.connected == daemon.actor.snapshot.connected
        }),
        daemon.phase is TickPower ==> daemon.resume(now, OutcomeView::Flag(true)) == (
            DaemonView { phase: PhaseView::TickPaired, ..daemon },
            NextView::Perform(OperationView::ListPaired),
        ),
{
}

/// What advertisements showed stays shown as long as the last of them is at most three
/// seconds old, and as long as there is a link; after that it is forgotten.
pub proof fn observations_last_three_seconds(daemon: DaemonView, now: u64, at: u64)
    requires
        daemon.actor.last_ble == Some(at),
        daemon.actor.ear_deadline matches Some(deadline) ==> now < deadline,
    ensures
        ({
            let left = daemon.begin(now, TriggerView::Tick).0.actor;
            let before = daemon.actor.snapshot;
            let nothing = Cell { percent: None, charging: None };
            if daemon.actor.connection || daemon.actor.socket || now <= at + 3_000_000_000 {
                &&& left.last_ble == Some(at)
                &&& left.snapshot.in_ear == before.in_ear
                &&& left.snapshot.battery == before.battery
            } else {
                &&& left.last_ble is None
                &&& left.snapshot.in_ear.0 is None && left.snapshot.in_ear.1 is None
                &&& left.snapshot.battery.left == nothing
                &&& left.snapshot.battery.right == nothing
                &&& left.snapshot.battery.case == nothing
            }
        }),
{
}

/// A device that has not confirmed by the deadline that it is worn is blocked and
/// everything about it forgotten; that is shown, and both buds have to come out as
/// before. Whether the block failed, the adapter is looked after when it is time to.
pub proof fn a_missed_deadline_is_shown(daemon: DaemonView, now: u64, deadline: int)
    requires
        daemon.actor.ear_deadline == Some(deadline),
        now >= deadline,
    ensures
        ({
            let (left, next) = daemon.begin(now, TriggerView::Tick);
            let (after, then) = left.resume(now, OutcomeView::Done);
            let end = if left.phase is Expiring {
                (after, then)
            } else {
                (left, next)
            };
            &&& daemon.actor.adapter && (daemon.actor.config matches Some(config)
                && config.managed) <==> left.phase is Expiring
            &&& left.phase is Expiring ==> (daemon.actor.config matches Some(config) && next
                == NextView::Perform(OperationView::Block { device: config.address }))
            &&& forgets(
                daemon.actor,
                ActorView { maintenance: daemon.actor.maintenance, ..left.actor },
                now,
            )
            &&& end.0.actor.snapshot.status == "error"@
            &&& end.0.actor.snapshot.error == Some(
                "AAP did not confirm in-ear status within five seconds; remove both buds before retrying"@,
            )
            &&& end.0.actor.require_removal == daemon.actor.require_removal
            &&& end.0.actor.adapter == daemon.actor.adapter
            &&& end.0.actor.scan == daemon.actor.scan
            &&& daemon.actor.maintenance matches Some(then) ==> {
                &&& now < then + 5_000_000_000 ==> end.1 == NextView::Perform(
                    OperationView::Publish,
                )
                &&& now >= then + 5_000_000_000 ==> end.1 == NextView::Perform(
                    if daemon.actor.adapter {
                        OperationView::QueryPowered
                    } else {
                        OperationView::OpenSession
                    },
                )
            }
        }),
{
}

/// If that block fails, the adapter is given up, and both failures are shown.
pub proof fn a_missed_deadline_that_cannot_be_guarded_ends_offline(
    daemon: DaemonView,
    now: u64,
    failure: Seq<char>,
)
    requires
        daemon.phase is Expiring,
        daemon.actor.adapter,
        daemon.actor.config matches Some(config) && config.managed,
    ensures
        ({
            let (left, next) = daemon.resume(now, OutcomeView::Failed(failure));
            let (end, last) = left.resume(now, OutcomeView::Done);
            &&& daemon.actor.config matches Some(config) && next == NextView::Perform(
                OperationView::Block { device: config.address },
            )
            &&& !end.actor.adapter && !end.actor.session && !end.actor.scan
            &&& end.actor.snapshot.status == "error"@
            &&& end.actor.snapshot.error == Some(
                "AAP confirmation timed out; guard failed: "@ + failure,
            )
            &&& daemon.actor.maintenance matches Some(then) ==> last == NextView::Perform(
                if now < then + 5_000_000_000 {
                    OperationView::Publish
                } else {
                    OperationView::OpenSession
                },
            )
        }),
{
}

/// The daemon starts with nothing, shows the name of a device that was stored, and
/// begins with the adapter.
pub proof fn the_start_knows_the_stored_device(config: Option<ConfigView>, now: u64)
    ensures
        ({
            let (left, next) = started(config, now);
            &&& next == NextView::Perform(OperationView::OpenSession)
            &&& left.phase == PhaseView::Opening(ReasonView::Start)
            &&& left.actor.config == config
            &&& left.actor.snapshot.name == match config {
                Some(config) => config.name,
                None => "AirPods"@,
            }
            &&& !left.actor.adapter && !left.actor.session && !left.actor.scan
            &&& !left.actor.connection && !left.actor.socket && !left.actor.audio
            &&& !left.actor.require_removal && !left.actor.live_ears
            &&& left.actor.cutoff == now
            &&& left.actor.maintenance is None
            &&& left.actor.snapshot.error is None
            &&& left.actor.snapshot.schema == 1
            &&& left.actor.snapshot.paired_devices.len() == 0
            &&& shows_rest(left.actor)
            &&& !left.actor.snapshot.connected
            &&& left.actor.snapshot.mode is None
            &&& left.actor.snapshot.in_ear.0 is None && left.actor.snapshot.in_ear.1 is None
        }),
{
}

} // verus!
