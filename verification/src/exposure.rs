//! That the device stays blocked while nothing authorizes a link to it.
use crate::bluetooth::EventView;
use crate::guarantees::{storable, the_start_is_sound};
use crate::policy::{
    ActorView, CommandView, DaemonView, OperationView, OutcomeView, PhaseView, TriggerView,
};
use crate::promises::{admitted, every_run_stays_sound, reached, InputView};
use crate::storage::ConfigView;
use vstd::prelude::*;

verus! {

impl PhaseView {
    /// While this is awaited the device may be unblocked, or is being blocked.
    pub open spec fn unguarded(self) -> bool {
        match self {
            PhaseView::Protecting(_) | PhaseView::Offline { .. } | PhaseView::SetupGuarding { .. }
            | PhaseView::Excepted { .. } | PhaseView::Closing { .. } | PhaseView::Releasing
            | PhaseView::Restoring { .. } | PhaseView::Relinquishing { .. }
            | PhaseView::Reblocking { .. } | PhaseView::Unblocking { .. }
            | PhaseView::Guarding { .. } | PhaseView::Losing | PhaseView::Expiring
            | PhaseView::Stopping | PhaseView::Stopped => true,
            PhaseView::StoringKeys { guard, .. } => guard is Some,
            _ => false,
        }
    }
}

impl DaemonView {
    /// The device is under control and an adapter is held, no link to it is held or
    /// being made, and it is not being unblocked or blocked: it has to be blocked.
    pub open spec fn closed(self) -> bool {
        self.actor.guarding() && !self.actor.linked() && !self.phase.unguarded()
    }

    /// The input says that the device was blocked.
    pub open spec fn blocks(self, input: InputView) -> bool {
        &&& input == InputView::Answer(OutcomeView::Done)
        &&& match self.asked() {
            Some(OperationView::Block { .. }) => true,
            Some(OperationView::SetBlocked { blocked, .. }) => blocked,
            _ => false,
        }
    }

    /// The device is asked to be unblocked.
    pub open spec fn unblocks(self) -> bool {
        match self.asked() {
            Some(OperationView::SetBlocked { blocked, .. }) => !blocked,
            Some(OperationView::Except { .. }) => true,
            _ => false,
        }
    }
}

proof fn initializing_stays_closed(daemon: DaemonView, now: u64, outcome: OutcomeView)
    requires
        daemon.sound(),
        daemon.expects(outcome),
        daemon.phase is Opening || daemon.phase is Finding || daemon.phase is Protecting
            || daemon.phase is Listing || daemon.phase is Powering || daemon.phase is Scanning,
    ensures
        daemon.initializing(now, outcome).0.closed() ==> daemon.closed() || daemon.blocks(
            InputView::Answer(outcome),
        ),
{
}

proof fn selecting_stays_closed(daemon: DaemonView, now: u64, outcome: OutcomeView)
    requires
        daemon.sound(),
        daemon.expects(outcome),
        daemon.phase is SetupPower || daemon.phase is SetupPaired || daemon.phase is SetupBlocked
            || daemon.phase is SetupAdapter || daemon.phase is SetupName,
    ensures
        daemon.selecting(now, outcome).0.closed() ==> daemon.closed() || daemon.blocks(
            InputView::Answer(outcome),
        ),
{
}

proof fn taking_over_stays_closed(daemon: DaemonView, now: u64, outcome: OutcomeView)
    requires
        daemon.sound(),
        daemon.expects(outcome),
        daemon.phase is SetupSaving || daemon.phase is SetupGuarding || daemon.phase
            is SetupAnnouncing || daemon.phase is Excepted || daemon.phase is Closing
            || daemon.phase is StoringKeys || daemon.phase is SetupScanning,
    ensures
        daemon.taking_over(now, outcome).0.closed() ==> daemon.closed() || daemon.blocks(
            InputView::Answer(outcome),
        ),
{
}

proof fn giving_up_stays_closed(daemon: DaemonView, now: u64, outcome: OutcomeView)
    requires
        daemon.sound(),
        daemon.expects(outcome),
        daemon.phase is Releasing || daemon.phase is Restoring || daemon.phase is Relinquishing
            || daemon.phase is Reblocking,
    ensures
        daemon.releasing(now, outcome).0.closed() ==> daemon.closed() || daemon.blocks(
            InputView::Answer(outcome),
        ),
{
}

proof fn serving_stays_closed(daemon: DaemonView, now: u64, outcome: OutcomeView)
    requires
        daemon.sound(),
        daemon.expects(outcome),
        daemon.phase is Offline || daemon.phase is Sending || daemon.phase is Unblocking
            || daemon.phase is Connecting || daemon.phase is Guarding || daemon.phase is Announcing
            || daemon.phase is Preferring || daemon.phase is Losing || daemon.phase is Expiring
            || daemon.phase is TickPower || daemon.phase is TickPaired || daemon.phase
            is Publishing || daemon.phase is Stopping,
    ensures
        daemon.serving(now, outcome).0.closed() ==> daemon.closed() || daemon.blocks(
            InputView::Answer(outcome),
        ),
{
}

proof fn answers_stay_closed(daemon: DaemonView, now: u64, outcome: OutcomeView)
    requires
        daemon.sound(),
        daemon.expects(outcome),
    ensures
        daemon.resume(now, outcome).0.closed() ==> daemon.closed() || daemon.blocks(
            InputView::Answer(outcome),
        ),
{
    match daemon.phase {
        PhaseView::Idle | PhaseView::Stopped => {},
        PhaseView::Opening(_) | PhaseView::Finding(_) | PhaseView::Protecting(_)
        | PhaseView::Listing(_) | PhaseView::Powering(_) | PhaseView::Scanning(_) => {
            initializing_stays_closed(daemon, now, outcome);
        },
        PhaseView::SetupPower { .. } | PhaseView::SetupPaired { .. }
        | PhaseView::SetupBlocked { .. } | PhaseView::SetupAdapter { .. }
        | PhaseView::SetupName { .. } => selecting_stays_closed(daemon, now, outcome),
        PhaseView::SetupSaving { .. } | PhaseView::SetupGuarding { .. }
        | PhaseView::SetupAnnouncing { .. } | PhaseView::Excepted { .. }
        | PhaseView::Closing { .. } | PhaseView::StoringKeys { .. } | PhaseView::SetupScanning => {
            taking_over_stays_closed(daemon, now, outcome);
        },
        PhaseView::Releasing | PhaseView::Restoring { .. } | PhaseView::Relinquishing { .. }
        | PhaseView::Reblocking { .. } => giving_up_stays_closed(daemon, now, outcome),
        _ => serving_stays_closed(daemon, now, outcome),
    }
}

proof fn commands_stay_closed(daemon: DaemonView, now: u64, command: CommandView)
    requires
        daemon.sound(),
        daemon.phase is Idle,
    ensures
        daemon.begin(now, TriggerView::Command(command)).0.closed() ==> daemon.closed(),
{
}

proof fn observations_stay_closed(
    actor: ActorView,
    now: u64,
    data: Seq<u8>,
    at: u64,
    fresh: bool,
)
    requires
        actor.coherent(),
    ensures
        actor.advertised(now, data, at, fresh).0.closed() ==> actor.guarding() && !actor.linked(),
{
}

proof fn events_stay_closed(actor: ActorView, now: u64, event: EventView)
    requires
        actor.coherent(),
        !(event is Advertisement),
    ensures
        actor.happened(now, event).0.closed() ==> actor.guarding() && !actor.linked(),
{
}

proof fn packets_stay_closed(actor: ActorView, now: u64, bytes: Option<Seq<u8>>)
    requires
        actor.coherent(),
        actor.socket,
    ensures
        !actor.received(now, bytes).0.closed(),
{
}

proof fn time_stays_closed(actor: ActorView, now: u64)
    requires
        actor.coherent(),
    ensures
        actor.tick(now).0.closed() ==> actor.guarding() && !actor.linked(),
        !actor.shutdown(now).0.closed(),
{
}

proof fn triggers_stay_closed(daemon: DaemonView, now: u64, trigger: TriggerView)
    requires
        daemon.sound(),
        daemon.possible(trigger),
    ensures
        daemon.begin(now, trigger).0.closed() ==> daemon.closed(),
{
    let actor = daemon.actor;
    match trigger {
        TriggerView::Command(command) => commands_stay_closed(daemon, now, command),
        TriggerView::Event(EventView::Advertisement { data, at, fresh }) => {
            observations_stay_closed(actor, now, data, at, fresh);
        },
        TriggerView::Event(event) => events_stay_closed(actor, now, event),
        TriggerView::Received(bytes) => packets_stay_closed(actor, now, bytes),
        _ => time_stays_closed(actor, now),
    }
}

/// Whether, in a run, the device may have been unblocked since it was last seen to
/// be blocked. At the start nothing is known of it.
pub open spec fn exposed(
    config: Option<ConfigView>,
    start: u64,
    inputs: Seq<(u64, InputView)>,
) -> bool
    decreases inputs.len(),
{
    if inputs.len() == 0 {
        true
    } else {
        let before = reached(config, start, inputs.drop_last()).daemon;
        if reached(config, start, inputs).daemon.unblocks() {
            true
        } else if before.blocks(inputs.last().1) {
            false
        } else {
            exposed(config, start, inputs.drop_last())
        }
    }
}

proof fn inputs_stay_closed(daemon: DaemonView, now: u64, input: InputView)
    requires
        daemon.sound(),
        daemon.admits(input),
    ensures
        daemon.takes(now, input).0.closed() ==> daemon.closed() || daemon.blocks(input),
{
    reveal(DaemonView::takes);
    match input {
        InputView::Trigger(trigger) => triggers_stay_closed(daemon, now, trigger),
        InputView::Answer(outcome) => answers_stay_closed(daemon, now, outcome),
    }
}

proof fn unblocking_is_open(daemon: DaemonView)
    ensures
        daemon.closed() ==> !daemon.unblocks(),
{
}

/// The device stays blocked: in every run, whenever a device is under control and
/// an adapter is held, no link to it is held or being made, and nothing is under
/// way to block or to unblock it, it was seen to be blocked and not unblocked
/// since. So it is when the daemon waits with an adapter.
pub proof fn the_device_stays_blocked(
    config: Option<ConfigView>,
    start: u64,
    inputs: Seq<(u64, InputView)>,
)
    requires
        config matches Some(config) ==> storable(config),
        admitted(config, start, inputs),
    ensures
        reached(config, start, inputs).daemon.closed() ==> !exposed(config, start, inputs),
    decreases inputs.len(),
{
    if inputs.len() == 0 {
        the_start_is_sound(config, start);
    } else {
        the_device_stays_blocked(config, start, inputs.drop_last());
        every_run_stays_sound(config, start, inputs.drop_last());
        let before = reached(config, start, inputs.drop_last()).daemon;
        let (now, input) = inputs.last();
        unblocking_is_open(reached(config, start, inputs).daemon);
        inputs_stay_closed(before, now, input);
    }
}

} // verus!
