//! What every run keeps up: advertisements are looked for whenever they can be, and the
//! setting that a device had before it was taken over is not forgotten.
use crate::address;
use crate::bluetooth::EventView;
use crate::guarantees::storable;
use crate::policy::{
    ActorView, CommandView, DaemonView, OperationView, OutcomeView, PhaseView, ReasonView,
    TriggerView,
};
use crate::promises::{admitted, every_run_stays_sound, reached, InputView};
use crate::storage::ConfigView;
use vstd::prelude::*;

verus! {

impl ActorView {
    /// There is a device under control whose keys are known.
    pub open spec fn known(self) -> bool {
        self.config matches Some(config) && config.managed && config.keys is Some
    }

    /// If a device is under control, it is the one with this address.
    pub open spec fn suits(self, address: Seq<u8>) -> bool {
        self.config matches Some(config) ==> (config.managed ==> config.address
            == address::written(address))
    }

    /// The original setting of a device under control.
    pub open spec fn keeps(self, blocked: bool) -> bool {
        self.config matches Some(config) ==> (config.managed ==> config.original_blocked
            == blocked)
    }
}

impl DaemonView {
    /// Advertisements are looked for exactly while there is an adapter and a device that
    /// is known, but for the turns in which that is being arranged or given up.
    pub open spec fn watchful(self) -> bool {
        &&& self.actor.scan ==> self.actor.adapter && self.actor.known()
        &&& match self.phase {
            PhaseView::Opening(_) | PhaseView::Finding(_) | PhaseView::Protecting(_)
            | PhaseView::Listing(_) | PhaseView::Powering(_) | PhaseView::Scanning(_)
            | PhaseView::Offline { .. } | PhaseView::Stopping | PhaseView::Stopped => true,
            PhaseView::SetupGuarding { .. } | PhaseView::SetupAnnouncing { .. }
            | PhaseView::Excepted { .. } | PhaseView::Closing { .. }
            | PhaseView::StoringKeys { .. } | PhaseView::SetupScanning | PhaseView::Releasing
            | PhaseView::Restoring { .. } | PhaseView::Relinquishing { .. }
            | PhaseView::Reblocking { .. } => !self.actor.scan,
            _ => self.actor.adapter && self.actor.known() ==> self.actor.scan,
        }
    }

    /// The original setting of the device is known for what it is while setup goes on.
    pub open spec fn faithful(self, blocked: bool) -> bool {
        &&& self.actor.keeps(blocked)
        &&& match self.phase {
            PhaseView::Opening(ReasonView::Setup(address))
            | PhaseView::Finding(ReasonView::Setup(address))
            | PhaseView::Protecting(ReasonView::Setup(address))
            | PhaseView::Listing(ReasonView::Setup(address))
            | PhaseView::Powering(ReasonView::Setup(address))
            | PhaseView::Scanning(ReasonView::Setup(address)) | PhaseView::SetupPower { address }
            | PhaseView::SetupPaired { address } => self.actor.suits(address),
            PhaseView::SetupBlocked { .. } => !(self.actor.config matches Some(config)
                && config.managed),
            PhaseView::SetupAdapter { original_blocked, .. }
            | PhaseView::SetupName { original_blocked, .. } => original_blocked == blocked,
            PhaseView::SetupSaving { config, .. } => config.original_blocked == blocked,
            _ => true,
        }
    }

    pub open spec fn steady(self, blocked: bool) -> bool {
        self.watchful() && self.faithful(blocked)
    }

    /// What an input tells of the setting that a device had before it was taken over:
    /// the answer to the question whether it is blocked.
    pub open spec fn tells_setting(self, input: InputView) -> Option<bool> {
        match (self.asked(), input) {
            (
                Some(OperationView::QueryBlocked { .. }),
                InputView::Answer(OutcomeView::Flag(blocked)),
            ) => Some(blocked),
            _ => None,
        }
    }
}

/// The setting that the device had before it was taken over: what it was last asked
/// for, or what was stored at the start.
pub open spec fn original_setting(
    config: Option<ConfigView>,
    start: u64,
    inputs: Seq<(u64, InputView)>,
) -> bool
    decreases inputs.len(),
{
    if inputs.len() == 0 {
        config matches Some(config) && config.original_blocked
    } else {
        match reached(config, start, inputs.drop_last()).daemon.tells_setting(inputs.last().1) {
            Some(blocked) => blocked,
            None => original_setting(config, start, inputs.drop_last()),
        }
    }
}

proof fn initializing_is_steady(daemon: DaemonView, now: u64, outcome: OutcomeView, blocked: bool)
    requires
        daemon.sound(),
        daemon.expects(outcome),
        daemon.steady(blocked),
        daemon.phase is Opening || daemon.phase is Finding || daemon.phase is Protecting
            || daemon.phase is Listing || daemon.phase is Powering || daemon.phase is Scanning,
    ensures
        daemon.initializing(now, outcome).0.steady(blocked),
{
}

proof fn selecting_is_steady(daemon: DaemonView, now: u64, outcome: OutcomeView, blocked: bool)
    requires
        daemon.sound(),
        daemon.expects(outcome),
        daemon.steady(blocked),
        daemon.phase is SetupPower || daemon.phase is SetupPaired || daemon.phase is SetupBlocked
            || daemon.phase is SetupAdapter || daemon.phase is SetupName,
    ensures
        daemon.selecting(now, outcome).0.steady(
            match outcome {
                OutcomeView::Flag(answer) => if daemon.phase is SetupBlocked {
                    answer
                } else {
                    blocked
                },
                _ => blocked,
            },
        ),
{
}

proof fn taking_over_is_steady(daemon: DaemonView, now: u64, outcome: OutcomeView, blocked: bool)
    requires
        daemon.sound(),
        daemon.expects(outcome),
        daemon.steady(blocked),
        daemon.phase is SetupSaving || daemon.phase is SetupGuarding || daemon.phase
            is SetupAnnouncing || daemon.phase is Excepted || daemon.phase is Closing
            || daemon.phase is StoringKeys || daemon.phase is SetupScanning,
    ensures
        daemon.taking_over(now, outcome).0.steady(blocked),
{
}

proof fn giving_up_is_steady(daemon: DaemonView, now: u64, outcome: OutcomeView, blocked: bool)
    requires
        daemon.sound(),
        daemon.expects(outcome),
        daemon.steady(blocked),
        daemon.phase is Releasing || daemon.phase is Restoring || daemon.phase is Relinquishing
            || daemon.phase is Reblocking,
    ensures
        daemon.releasing(now, outcome).0.steady(blocked),
{
}

proof fn serving_is_steady(daemon: DaemonView, now: u64, outcome: OutcomeView, blocked: bool)
    requires
        daemon.sound(),
        daemon.expects(outcome),
        daemon.steady(blocked),
        daemon.phase is Offline || daemon.phase is Sending || daemon.phase is Unblocking
            || daemon.phase is Connecting || daemon.phase is Guarding || daemon.phase is Announcing
            || daemon.phase is Preferring || daemon.phase is Losing || daemon.phase is Expiring
            || daemon.phase is TickPower || daemon.phase is TickPaired || daemon.phase
            is Publishing || daemon.phase is Stopping,
    ensures
        daemon.serving(now, outcome).0.steady(blocked),
{
}

proof fn answers_are_steady(daemon: DaemonView, now: u64, outcome: OutcomeView, blocked: bool)
    requires
        daemon.sound(),
        daemon.expects(outcome),
        daemon.steady(blocked),
    ensures
        daemon.resume(now, outcome).0.steady(
            match daemon.tells_setting(InputView::Answer(outcome)) {
                Some(answer) => answer,
                None => blocked,
            },
        ),
{
    match daemon.phase {
        PhaseView::Idle | PhaseView::Stopped => {},
        PhaseView::Opening(_) | PhaseView::Finding(_) | PhaseView::Protecting(_)
        | PhaseView::Listing(_) | PhaseView::Powering(_) | PhaseView::Scanning(_) => {
            initializing_is_steady(daemon, now, outcome, blocked);
        },
        PhaseView::SetupPower { .. } | PhaseView::SetupPaired { .. }
        | PhaseView::SetupBlocked { .. } | PhaseView::SetupAdapter { .. }
        | PhaseView::SetupName { .. } => selecting_is_steady(daemon, now, outcome, blocked),
        PhaseView::SetupSaving { .. } | PhaseView::SetupGuarding { .. }
        | PhaseView::SetupAnnouncing { .. } | PhaseView::Excepted { .. }
        | PhaseView::Closing { .. } | PhaseView::StoringKeys { .. } | PhaseView::SetupScanning => {
            taking_over_is_steady(daemon, now, outcome, blocked);
        },
        PhaseView::Releasing | PhaseView::Restoring { .. } | PhaseView::Relinquishing { .. }
        | PhaseView::Reblocking { .. } => giving_up_is_steady(daemon, now, outcome, blocked),
        _ => serving_is_steady(daemon, now, outcome, blocked),
    }
}

proof fn commands_are_steady(daemon: DaemonView, now: u64, command: CommandView, blocked: bool)
    requires
        daemon.sound(),
        daemon.phase is Idle,
        daemon.steady(blocked),
    ensures
        daemon.begin(now, TriggerView::Command(command)).0.steady(blocked),
{
}

proof fn observations_are_steady(
    daemon: DaemonView,
    now: u64,
    data: Seq<u8>,
    at: u64,
    fresh: bool,
    blocked: bool,
)
    requires
        daemon.sound(),
        daemon.phase is Idle,
        daemon.steady(blocked),
    ensures
        daemon.actor.advertised(now, data, at, fresh).0.steady(blocked),
{
}

proof fn events_are_steady(daemon: DaemonView, now: u64, event: EventView, blocked: bool)
    requires
        daemon.sound(),
        daemon.phase is Idle,
        daemon.steady(blocked),
        !(event is Advertisement),
    ensures
        daemon.actor.happened(now, event).0.steady(blocked),
{
}

proof fn packets_are_steady(daemon: DaemonView, now: u64, bytes: Option<Seq<u8>>, blocked: bool)
    requires
        daemon.sound(),
        daemon.phase is Idle,
        daemon.steady(blocked),
    ensures
        daemon.actor.received(now, bytes).0.steady(blocked),
{
}

proof fn time_is_steady(daemon: DaemonView, now: u64, blocked: bool)
    requires
        daemon.sound(),
        daemon.phase is Idle,
        daemon.steady(blocked),
    ensures
        daemon.actor.tick(now).0.steady(blocked),
        daemon.actor.shutdown(now).0.steady(blocked),
{
}

proof fn inputs_are_steady(daemon: DaemonView, now: u64, input: InputView, blocked: bool)
    requires
        daemon.sound(),
        daemon.admits(input),
        daemon.steady(blocked),
    ensures
        daemon.takes(now, input).0.steady(
            match daemon.tells_setting(input) {
                Some(answer) => answer,
                None => blocked,
            },
        ),
{
    reveal(DaemonView::takes);
    match input {
        InputView::Answer(outcome) => answers_are_steady(daemon, now, outcome, blocked),
        InputView::Trigger(trigger) => match trigger {
            TriggerView::Command(command) => commands_are_steady(daemon, now, command, blocked),
            TriggerView::Event(EventView::Advertisement { data, at, fresh }) => {
                observations_are_steady(daemon, now, data, at, fresh, blocked);
            },
            TriggerView::Event(event) => events_are_steady(daemon, now, event, blocked),
            TriggerView::Received(bytes) => packets_are_steady(daemon, now, bytes, blocked),
            _ => time_is_steady(daemon, now, blocked),
        },
    }
}

proof fn runs_are_steady(config: Option<ConfigView>, start: u64, inputs: Seq<(u64, InputView)>)
    requires
        config matches Some(config) ==> storable(config),
        admitted(config, start, inputs),
    ensures
        reached(config, start, inputs).daemon.steady(original_setting(config, start, inputs)),
    decreases inputs.len(),
{
    if inputs.len() > 0 {
        let earlier = inputs.drop_last();
        runs_are_steady(config, start, earlier);
        every_run_stays_sound(config, start, earlier);
        let (now, input) = inputs.last();
        inputs_are_steady(
            reached(config, start, earlier).daemon,
            now,
            input,
            original_setting(config, start, earlier),
        );
    }
}

/// In every run, however the adapter came to be held, a daemon that waits looks for
/// advertisements exactly if it holds an adapter and a device is under control whose
/// keys are known.
pub proof fn a_waiting_daemon_looks_for_its_device(
    config: Option<ConfigView>,
    start: u64,
    inputs: Seq<(u64, InputView)>,
)
    requires
        config matches Some(config) ==> storable(config),
        admitted(config, start, inputs),
        reached(config, start, inputs).daemon.phase is Idle,
    ensures
        ({
            let actor = reached(config, start, inputs).daemon.actor;
            actor.scan <==> actor.adapter && (actor.config matches Some(config) && config.managed
                && config.keys is Some)
        }),
{
    runs_are_steady(config, start, inputs);
}

/// In every run what a release restores is the setting that the device had before it
/// was taken over: the answer to the question whether it was blocked that was asked
/// then. As long as the device is under control that is what is stored, however often
/// it is set up again.
pub proof fn releases_restore_the_setting_from_before(
    config: Option<ConfigView>,
    start: u64,
    inputs: Seq<(u64, InputView)>,
)
    requires
        config matches Some(config) ==> storable(config),
        admitted(config, start, inputs),
    ensures
        ({
            let history = reached(config, start, inputs);
            let original = original_setting(config, start, inputs);
            &&& history.daemon.phase is Restoring ==> (
            history.daemon.asked() matches Some(OperationView::SetBlocked { blocked, .. })
                && blocked == original)
            &&& history.stored matches Some(stored) ==> (stored.managed ==> stored.original_blocked
                == original)
            &&& history.daemon.asked() matches Some(OperationView::Save { config: stored })
                ==> stored.original_blocked == original
        }),
{
    runs_are_steady(config, start, inputs);
    every_run_stays_sound(config, start, inputs);
}

} // verus!
