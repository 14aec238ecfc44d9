//! What authorizes a connection, and what ends one.
use crate::bluetooth::EventView;
use crate::model::{both_out, unknown_battery, unknown_ears, worn, Mode};
use crate::policy::{
    elapsed, ActorView, CommandView, DaemonView, NextView, OperationView, OutcomeView, PhaseView,
    TriggerView,
};
use crate::guarantees::storable;
use crate::promises::{
    admitted, answers_begin_no_attempt, every_run_stays_sound, reached, InputView,
};
use crate::protocol::{self, AdvertisementView, PacketView};
use crate::storage::ConfigView;
use vstd::prelude::*;

verus! {

impl ActorView {
    /// What a trigger shows of the ears through an advertisement that counts, came
    /// fresh from the radio and can be read with the stored key.
    pub open spec fn observes(self, now: u64, trigger: TriggerView) -> Option<AdvertisementView> {
        match (trigger, self.reading_key()) {
            (
                TriggerView::Event(EventView::Advertisement { data, at, fresh }),
                Some(enc),
            ) => if fresh && self.counts(now, at) {
                protocol::advertised_to(data, enc)
            } else {
                None
            },
            _ => None,
        }
    }
}

proof fn advertisements_authorize(
    actor: ActorView,
    now: u64,
    data: Seq<u8>,
    at: u64,
    fresh: bool,
)
    requires
        actor.coherent(),
    ensures
        ({
            let trigger = TriggerView::Event(EventView::Advertisement { data, at, fresh });
            let left = actor.advertised(now, data, at, fresh).0;
            &&& left.phase is Unblocking <==> actor.adapter && !actor.linked()
                && !actor.require_removal && (actor.observes(now, trigger) matches Some(seen)
                && worn(seen.ears))
            &&& (actor.require_removal && !left.actor.require_removal) ==> (actor.observes(
                now,
                trigger,
            ) matches Some(seen) && both_out(seen.ears))
        }),
{
}

proof fn packets_authorize_nothing(actor: ActorView, now: u64, bytes: Option<Seq<u8>>)
    ensures
        ({
            let left = actor.received(now, bytes).0;
            &&& !(left.phase is Unblocking)
            &&& (actor.require_removal && !left.actor.require_removal) ==> (bytes matches Some(
                bytes,
            ) && (protocol::parsed(bytes) matches Some(PacketView::Ear(ears)) && both_out(ears)))
        }),
{
}

proof fn commands_authorize_nothing(actor: ActorView, now: u64, command: CommandView)
    requires
        actor.coherent(),
    ensures
        ({
            let left = DaemonView { actor, phase: PhaseView::Idle }.begin(
                now,
                TriggerView::Command(command),
            ).0;
            &&& !(left.phase is Unblocking)
            &&& left.actor.require_removal == actor.require_removal
        }),
{
}

proof fn events_authorize_nothing(actor: ActorView, now: u64, event: EventView)
    requires
        !(event is Advertisement),
    ensures
        !(actor.happened(now, event).0.phase is Unblocking),
        actor.happened(now, event).0.actor.require_removal == actor.require_removal,
{
}

proof fn time_authorizes_nothing(actor: ActorView, now: u64)
    ensures
        !(actor.tick(now).0.phase is Unblocking),
        actor.tick(now).0.actor.require_removal == actor.require_removal,
        !(actor.shutdown(now).0.phase is Unblocking),
        actor.shutdown(now).0.actor.require_removal == actor.require_removal,
{
}

/// A connection is attempted exactly when a fresh advertisement, received after
/// the last reset, at most three seconds old and read with the stored key, shows
/// that the device is worn, while there is an adapter, no link, and no attempt
/// that still waits for both buds to come out. Nothing else leads to an attempt.
pub proof fn only_a_fresh_worn_observation_authorizes(
    daemon: DaemonView,
    now: u64,
    trigger: TriggerView,
)
    requires
        daemon.sound(),
        daemon.possible(trigger),
    ensures
        daemon.begin(now, trigger).0.phase is Unblocking <==> {
            &&& daemon.actor.adapter
            &&& !daemon.actor.linked()
            &&& !daemon.actor.require_removal
            &&& daemon.actor.observes(now, trigger) matches Some(seen) && worn(seen.ears)
        },
{
    let actor = daemon.actor;
    match trigger {
        TriggerView::Event(EventView::Advertisement { data, at, fresh }) => {
            advertisements_authorize(actor, now, data, at, fresh);
        },
        TriggerView::Event(event) => events_authorize_nothing(actor, now, event),
        TriggerView::Received(bytes) => packets_authorize_nothing(actor, now, bytes),
        TriggerView::Command(command) => commands_authorize_nothing(actor, now, command),
        _ => time_authorizes_nothing(actor, now),
    }
}

/// One attempt is made each time the buds are put in: an attempt demands that both
/// come out first, and nothing that happens lifts that demand but a report that
/// both are out.
pub proof fn one_attempt_is_made_per_wearing(daemon: DaemonView, now: u64, trigger: TriggerView)
    requires
        daemon.sound(),
        daemon.possible(trigger),
    ensures
        daemon.begin(now, trigger).0.phase is Unblocking ==> daemon.begin(
            now,
            trigger,
        ).0.actor.require_removal,
        (daemon.actor.require_removal && !daemon.begin(now, trigger).0.actor.require_removal)
            ==> match trigger {
            TriggerView::Event(_) => daemon.actor.observes(now, trigger) matches Some(seen)
                && both_out(seen.ears),
            TriggerView::Received(Some(bytes)) => protocol::parsed(bytes) matches Some(
                PacketView::Ear(ears),
            ) && both_out(ears),
            _ => false,
        },
{
    let actor = daemon.actor;
    crate::guarantees::every_trigger_keeps_the_state_sound(daemon, now, trigger);
    match trigger {
        TriggerView::Event(EventView::Advertisement { data, at, fresh }) => {
            advertisements_authorize(actor, now, data, at, fresh);
        },
        TriggerView::Event(event) => events_authorize_nothing(actor, now, event),
        TriggerView::Received(bytes) => packets_authorize_nothing(actor, now, bytes),
        TriggerView::Command(command) => commands_authorize_nothing(actor, now, command),
        _ => time_authorizes_nothing(actor, now),
    }
}

/// What was cached before the scan is shown but never acted on.
pub proof fn cached_observations_never_authorize(
    daemon: DaemonView,
    now: u64,
    data: Seq<u8>,
    at: u64,
)
    ensures
        ({
            let trigger = TriggerView::Event(
                EventView::Advertisement { data, at, fresh: false },
            );
            let (left, next) = daemon.begin(now, trigger);
            let (shown, before) = (left.actor.snapshot, daemon.actor.snapshot);
            &&& next == NextView::Perform(OperationView::Publish)
            &&& left.actor == ActorView {
                snapshot: crate::model::SnapshotView {
                    in_ear: shown.in_ear,
                    battery: shown.battery,
                    ..before
                },
                ..daemon.actor
            }
        }),
{
}

/// What a live channel reports is neither overwritten nor expired by
/// advertisements.
pub proof fn live_state_outranks_advertisements(
    daemon: DaemonView,
    now: u64,
    data: Seq<u8>,
    at: u64,
    fresh: bool,
)
    requires
        daemon.actor.live_ears,
    ensures
        daemon.begin(
            now,
            TriggerView::Event(EventView::Advertisement { data, at, fresh }),
        ) == daemon.actor.settle(),
{
}

/// The end of a connection that was given up in the meantime changes nothing.
pub proof fn abandoned_connections_are_ignored(
    daemon: DaemonView,
    now: u64,
    generation: u64,
    failure: Option<Seq<char>>,
)
    requires
        generation != daemon.actor.generation,
    ensures
        daemon.begin(now, TriggerView::Event(EventView::Ready { generation, failure }))
            == daemon.actor.settle(),
{
}

/// A mode is sent exactly when the device is connected and worn; otherwise the
/// request is refused. Either way no mode is claimed.
pub proof fn modes_are_sent_to_a_worn_device(daemon: DaemonView, now: u64, mode: Mode)
    requires
        daemon.sound(),
    ensures
        ({
            let (left, next) = daemon.begin(now, TriggerView::Command(CommandView::Mode(mode)));
            &&& if daemon.actor.snapshot.connected && worn(daemon.actor.snapshot.in_ear) {
                next == NextView::Perform(OperationView::SendMode { mode })
            } else {
                left.phase matches PhaseView::Publishing { reply: Some(Err(_)) }
            }
            &&& left.actor.snapshot.mode == daemon.actor.snapshot.mode
        }),
{
}

/// A mode that was sent and not confirmed is given up after five seconds, and what
/// the device reported stays shown.
pub proof fn unconfirmed_modes_are_given_up(daemon: DaemonView, now: u64, later: u64, mode: Mode)
    requires
        daemon.actor.snapshot.mode != Some(mode),
        later >= now + 5_000_000_000,
    ensures
        ({
            let sent = daemon.actor.remember(now, mode);
            let waited = sent.unconfirmed(later);
            &&& waited.pending_mode is None
            &&& waited.snapshot.error is Some
            &&& waited.snapshot.mode == daemon.actor.snapshot.mode
        }),
{
}

/// After these turns no link is left, and the device is blocked again if it is
/// under control and there is an adapter.
pub open spec fn ends_links(daemon: DaemonView, left: DaemonView, next: NextView) -> bool {
    &&& left.actor.quiet()
    &&& !left.actor.snapshot.connected
    &&& daemon.actor.guarded_device() matches Some(device) ==> next == NextView::Perform(
        OperationView::Block { device },
    )
}

/// A device that says that it is not worn is disconnected and blocked.
pub proof fn taking_out_ends_the_link(daemon: DaemonView, now: u64, bytes: Seq<u8>)
    requires
        protocol::parsed(bytes) matches Some(PacketView::Ear(ears)) && !worn(ears),
    ensures
        ({
            let (left, next) = daemon.begin(now, TriggerView::Received(Some(bytes)));
            ends_links(daemon, left, next)
        }),
{
}

/// A channel that is lost leaves the device blocked.
pub proof fn a_lost_channel_ends_the_link(daemon: DaemonView, now: u64, bytes: Option<Seq<u8>>)
    requires
        bytes matches Some(bytes) ==> bytes.len() == 0,
    ensures
        ({
            let (left, next) = daemon.begin(now, TriggerView::Received(bytes));
            ends_links(daemon, left, next)
        }),
{
}

/// A device that does not confirm within five seconds that it is worn is
/// disconnected and blocked.
pub proof fn silence_ends_the_link(daemon: DaemonView, now: u64, later: u64)
    requires
        daemon.sound(),
        daemon.actor.connection,
        worn(daemon.actor.snapshot.in_ear),
        later >= now + 5_000_000_000,
    ensures
        ({
            let ready = TriggerView::Event(
                EventView::Ready { generation: daemon.actor.generation, failure: None },
            );
            let open = daemon.begin(now, ready).0;
            let (left, next) = DaemonView { actor: open.actor, phase: PhaseView::Idle }.begin(
                later,
                TriggerView::Tick,
            );
            &&& open.actor.socket
            &&& !open.actor.snapshot.connected
            &&& ends_links(open, left, next)
        }),
{
}

/// A link that the daemon did not ask for, or an unblocking that it did not ask
/// for, is undone; so is what is left of a link that someone else ended.
pub proof fn foreign_changes_are_undone(daemon: DaemonView, now: u64, event: EventView)
    requires
        match event {
            EventView::Connected(connected) => connected != daemon.actor.linked(),
            EventView::Blocked(blocked) => !blocked && !daemon.actor.linked(),
            _ => false,
        },
    ensures
        ({
            let (left, next) = daemon.begin(now, TriggerView::Event(event));
            ends_links(daemon, left, next)
        }),
{
}

/// The daemon does not stop without having blocked the device.
pub proof fn shutdown_blocks_first(daemon: DaemonView, now: u64)
    ensures
        ({
            let (left, next) = daemon.begin(now, TriggerView::Shutdown);
            &&& ends_links(daemon, left, next)
            &&& !left.actor.scan
            &&& daemon.actor.guarded_device() is None ==> next == NextView::Stop { failure: None }
        }),
{
}

/// A failure gives up the links, then the adapter, and is shown. Where the device
/// could not be blocked, that is shown with it.
pub proof fn failures_are_shown(
    daemon: DaemonView,
    now: u64,
    reason: Seq<char>,
    outcome: OutcomeView,
)
    requires
        outcome is Done || outcome is Failed,
    ensures
        ({
            let (left, next) = daemon.begin(now, TriggerView::Event(EventView::Failure(reason)));
            let end = if daemon.actor.guarding() {
                left.resume(now, outcome).0.actor
            } else {
                left.actor
            };
            &&& ends_links(daemon, left, next)
            &&& !end.adapter && !end.session && !end.scan && end.quiet()
            &&& end.snapshot.status == "error"@
            &&& end.snapshot.error == Some(
                match outcome {
                    OutcomeView::Failed(failure) => if daemon.actor.guarding() {
                        reason + "; guard could not be confirmed: "@ + failure
                    } else {
                        reason
                    },
                    _ => reason,
                },
            )
        }),
{
}

/// What advertisements showed is no longer shown once the last of them is more
/// than three seconds old and there is no link.
pub proof fn old_observations_are_forgotten(daemon: DaemonView, now: u64, at: u64)
    requires
        daemon.sound(),
        !daemon.actor.linked(),
        daemon.actor.last_ble == Some(at),
        elapsed(now, at) > 3_000_000_000,
    ensures
        ({
            let left = daemon.begin(now, TriggerView::Tick).0.actor;
            &&& left.snapshot.in_ear == unknown_ears()
            &&& left.snapshot.battery == unknown_battery()
            &&& left.last_ble is None
        }),
{
}

/// Whoever asks for another device than the one under control is told to release
/// that one first, and nothing about the configuration changes.
pub proof fn only_one_device_is_controlled(daemon: DaemonView, now: u64, text: Seq<char>)
    requires
        daemon.sound(),
        crate::address::parsed(text) matches Ok(address) && (daemon.actor.config matches Some(
            config,
        ) && config.managed && config.address != crate::address::written(address)),
    ensures
        ({
            let (left, next) = daemon.begin(now, TriggerView::Command(CommandView::Setup(text)));
            let reason = "release the managed device before selecting another"@;
            &&& left.actor.config == daemon.actor.config
            &&& match left.phase {
                PhaseView::Offline { after, .. } => after == crate::policy::AfterView::Reply(
                    reason,
                ),
                PhaseView::Publishing { reply } => reply == Some(
                    Err::<(), Seq<char>>(reason),
                ),
                _ => false,
            }
        }),
{
}

/// That a preference for audio could not be met is shown, of the live session
/// only, and ends nothing.
pub proof fn audio_warnings_end_nothing(
    daemon: DaemonView,
    now: u64,
    generation: u64,
    message: Seq<char>,
)
    ensures
        daemon.begin(
            now,
            TriggerView::Event(EventView::AudioWarning { generation, message }),
        ) == if generation == daemon.actor.generation && daemon.actor.live_ears {
            daemon.actor.message(Some(message)).settle()
        } else {
            daemon.actor.settle()
        },
{
}

impl DaemonView {
    /// An input that lifts the demand that both buds come out first: a report that
    /// they are out, or the end of a setup or of a release.
    pub open spec fn lifts(self, now: u64, input: InputView) -> bool {
        match input {
            InputView::Trigger(TriggerView::Received(Some(bytes))) => protocol::parsed(
                bytes,
            ) matches Some(PacketView::Ear(ears)) && both_out(ears),
            InputView::Trigger(trigger) => self.actor.observes(now, trigger) matches Some(seen)
                && both_out(seen.ears),
            InputView::Answer(outcome) => outcome is Done && (self.phase is StoringKeys
                || self.phase is Relinquishing),
        }
    }
}

proof fn beginnings_are_admitted(
    config: Option<ConfigView>,
    start: u64,
    inputs: Seq<(u64, InputView)>,
    n: int,
)
    requires
        admitted(config, start, inputs),
        0 <= n <= inputs.len(),
    ensures
        admitted(config, start, inputs.take(n)),
    decreases inputs.len(),
{
    if n < inputs.len() {
        beginnings_are_admitted(config, start, inputs.drop_last(), n);
        assert(inputs.drop_last().take(n) =~= inputs.take(n));
    } else {
        assert(inputs.take(n) =~= inputs);
    }
}

proof fn inputs_keep_the_demand(daemon: DaemonView, now: u64, input: InputView)
    requires
        daemon.sound(),
        daemon.admits(input),
    ensures
        daemon.actor.require_removal ==> daemon.takes(now, input).0.actor.require_removal
            || daemon.lifts(now, input),
        daemon.takes(now, input).0.phase is Unblocking ==> !daemon.actor.require_removal,
{
    reveal(DaemonView::takes);
    match input {
        InputView::Trigger(trigger) => {
            one_attempt_is_made_per_wearing(daemon, now, trigger);
            only_a_fresh_worn_observation_authorizes(daemon, now, trigger);
        },
        InputView::Answer(outcome) => answers_begin_no_attempt(daemon, now, outcome),
    }
}

/// The demand that both buds come out first stays until it is lifted.
proof fn demands_last(
    config: Option<ConfigView>,
    start: u64,
    inputs: Seq<(u64, InputView)>,
    i: int,
    n: int,
)
    requires
        config matches Some(config) ==> storable(config),
        admitted(config, start, inputs),
        0 <= i < n <= inputs.len(),
        reached(config, start, inputs.take(i + 1)).daemon.actor.require_removal,
    ensures
        reached(config, start, inputs.take(n)).daemon.actor.require_removal || exists|k: int|
            i < k < n && #[trigger] reached(config, start, inputs.take(k)).daemon.lifts(
                inputs[k].0,
                inputs[k].1,
            ),
    decreases n,
{
    if n > i + 1 {
        let m = n - 1;
        demands_last(config, start, inputs, i, m);
        beginnings_are_admitted(config, start, inputs, m);
        beginnings_are_admitted(config, start, inputs, n);
        every_run_stays_sound(config, start, inputs.take(m));
        let before = reached(config, start, inputs.take(m)).daemon;
        let (now, input) = inputs[m];
        assert(inputs.take(n).drop_last() =~= inputs.take(m));
        assert(inputs.take(n).last() == inputs[m]);
        inputs_keep_the_demand(before, now, input);
    }
}

/// Between two attempts to connect in a run both buds were reported to be out, or
/// a setup or a release came to its end.
pub proof fn attempts_are_apart(
    config: Option<ConfigView>,
    start: u64,
    inputs: Seq<(u64, InputView)>,
    i: int,
    j: int,
)
    requires
        config matches Some(config) ==> storable(config),
        admitted(config, start, inputs),
        0 <= i < j < inputs.len(),
        reached(config, start, inputs.take(i + 1)).daemon.phase is Unblocking,
        reached(config, start, inputs.take(j + 1)).daemon.phase is Unblocking,
    ensures
        exists|k: int|
            i < k < j && #[trigger] reached(config, start, inputs.take(k)).daemon.lifts(
                inputs[k].0,
                inputs[k].1,
            ),
{
    beginnings_are_admitted(config, start, inputs, i + 1);
    every_run_stays_sound(config, start, inputs.take(i + 1));
    demands_last(config, start, inputs, i, j);
    beginnings_are_admitted(config, start, inputs, j);
    beginnings_are_admitted(config, start, inputs, j + 1);
    every_run_stays_sound(config, start, inputs.take(j));
    let before = reached(config, start, inputs.take(j)).daemon;
    let (now, input) = inputs[j];
    assert(inputs.take(j + 1).drop_last() =~= inputs.take(j));
    assert(inputs.take(j + 1).last() == inputs[j]);
    inputs_keep_the_demand(before, now, input);
}

} // verus!
