//! Guarding or releasing the device while no daemon runs.
use crate::address;
use crate::storage::{failure, Config, ConfigView};
use crate::text;
use vstd::prelude::*;

verus! {

/// What is done next. `Block` stands for all the steps of blocking the device,
/// `Finished` carries the result.
pub enum Recovery {
    Open { config: Config, release: bool },
    Find { config: Config, release: bool },
    Restore { address: [u8; 6], config: Config },
    Save { address: [u8; 6], config: Config },
    Reblock { address: [u8; 6], reason: String },
    Block { config: Config },
    Finished(Result<(), String>),
}

pub enum RecoveryView {
    Open { config: ConfigView, release: bool },
    Find { config: ConfigView, release: bool },
    Restore { address: Seq<u8>, config: ConfigView },
    Save { address: Seq<u8>, config: ConfigView },
    Reblock { address: Seq<u8>, reason: Seq<char> },
    Block { config: ConfigView },
    Finished(Option<Seq<char>>),
}

impl View for Recovery {
    type V = RecoveryView;

    open spec fn view(&self) -> RecoveryView {
        match self {
            Recovery::Open { config, release } => RecoveryView::Open {
                config: config@,
                release: *release,
            },
            Recovery::Find { config, release } => RecoveryView::Find {
                config: config@,
                release: *release,
            },
            Recovery::Restore { address, config } => RecoveryView::Restore {
                address: address@,
                config: config@,
            },
            Recovery::Save { address, config } => RecoveryView::Save {
                address: address@,
                config: config@,
            },
            Recovery::Reblock { address, reason } => RecoveryView::Reblock {
                address: address@,
                reason: reason@,
            },
            Recovery::Block { config } => RecoveryView::Block { config: config@ },
            Recovery::Finished(result) => RecoveryView::Finished(failure(*result)),
        }
    }
}

impl RecoveryView {
    /// Only a device under control is guarded or released.
    pub open spec fn start(stored: Option<ConfigView>, release: bool) -> RecoveryView {
        match stored {
            Some(config) => if config.managed {
                RecoveryView::Open { config, release }
            } else {
                RecoveryView::Finished(None)
            },
            None => RecoveryView::Finished(None),
        }
    }

    /// The adapter is there.
    pub open spec fn found(config: ConfigView, release: bool) -> RecoveryView {
        if release {
            match address::parsed(config.address) {
                Ok(address) => RecoveryView::Restore { address, config },
                Err(message) => RecoveryView::Finished(Some(message)),
            }
        } else {
            RecoveryView::Block { config }
        }
    }

    /// The original setting is restored before the device is given up; where that
    /// cannot be stored, it is blocked again.
    pub open spec fn after(self, outcome: Option<Seq<char>>) -> RecoveryView {
        match (self, outcome) {
            (RecoveryView::Finished(_), _) => self,
            (RecoveryView::Open { config, release }, None) => RecoveryView::Find { config, release },
            (RecoveryView::Open { .. }, Some(message)) => RecoveryView::Finished(
                Some("BlueZ is unavailable; device guard cannot be changed: "@ + message),
            ),
            (RecoveryView::Find { config, release }, None) => RecoveryView::found(config, release),
            (RecoveryView::Restore { address, config }, None) => RecoveryView::Save {
                address,
                config: ConfigView { managed: false, ..config },
            },
            (RecoveryView::Save { .. }, None) => RecoveryView::Finished(None),
            (RecoveryView::Save { address, .. }, Some(reason)) => RecoveryView::Reblock {
                address,
                reason,
            },
            (RecoveryView::Reblock { reason, .. }, None) => RecoveryView::Finished(Some(reason)),
            (RecoveryView::Reblock { .. }, Some(message)) => RecoveryView::Finished(
                Some("release save failed and guard could not be restored: "@ + message),
            ),
            (RecoveryView::Block { .. }, outcome) => RecoveryView::Finished(outcome),
            (_, Some(message)) => RecoveryView::Finished(Some(message)),
        }
    }
}

/// Begins to guard or to release the device of the stored configuration.
pub fn offline_guard(stored: Option<Config>, release: bool) -> (r: Recovery)
    ensures
        r@ == RecoveryView::start(stored.deep_view(), release),
{
    match stored {
        Some(config) => if config.managed {
            Recovery::Open { config, release }
        } else {
            Recovery::Finished(Ok(()))
        },
        None => Recovery::Finished(Ok(())),
    }
}

impl Recovery {
    fn found(config: Config, release: bool) -> (r: Recovery)
        ensures
            r@ == RecoveryView::found(config@, release),
    {
        if release {
            match address::parse(config.address.as_str()) {
                Ok(address) => Recovery::Restore { address, config },
                Err(message) => Recovery::Finished(Err(message)),
            }
        } else {
            Recovery::Block { config }
        }
    }

    /// The step that follows one that ended in `outcome`.
    pub fn after(self, outcome: Result<(), String>) -> (r: Recovery)
        ensures
            r@ == self@.after(failure(outcome)),
    {
        match (self, outcome) {
            (Recovery::Finished(result), _) => Recovery::Finished(result),
            (Recovery::Open { config, release }, Ok(_)) => Recovery::Find { config, release },
            (Recovery::Open { .. }, Err(message)) => Recovery::Finished(
                Err(
                    text::join(
                        "BlueZ is unavailable; device guard cannot be changed: ",
                        message.as_str(),
                    ),
                ),
            ),
            (Recovery::Find { config, release }, Ok(_)) => Recovery::found(config, release),
            (Recovery::Restore { address, config }, Ok(_)) => {
                let mut given_up = config;
                given_up.managed = false;
                Recovery::Save { address, config: given_up }
            },
            (Recovery::Save { .. }, Ok(_)) => Recovery::Finished(Ok(())),
            (Recovery::Save { address, .. }, Err(reason)) => Recovery::Reblock { address, reason },
            (Recovery::Reblock { reason, .. }, Ok(_)) => Recovery::Finished(Err(reason)),
            (Recovery::Reblock { .. }, Err(message)) => Recovery::Finished(
                Err(
                    text::join(
                        "release save failed and guard could not be restored: ",
                        message.as_str(),
                    ),
                ),
            ),
            (Recovery::Block { .. }, outcome) => Recovery::Finished(outcome),
            (_, Err(message)) => Recovery::Finished(Err(message)),
        }
    }
}

/// The steps that are taken, from the first one on, when they end as `outcomes`
/// says.
pub open spec fn recovery(
    stored: Option<ConfigView>,
    release: bool,
    outcomes: Seq<Option<Seq<char>>>,
) -> Seq<RecoveryView>
    decreases outcomes.len(),
{
    if outcomes.len() == 0 {
        seq![RecoveryView::start(stored, release)]
    } else {
        let steps = recovery(stored, release, outcomes.drop_last());
        steps.push(steps.last().after(outcomes.last()))
    }
}

/// What a step tells of the run that led to it.
pub open spec fn led_to(
    step: RecoveryView,
    stored: Option<ConfigView>,
    release: bool,
    steps: Seq<RecoveryView>,
    outcomes: Seq<Option<Seq<char>>>,
) -> bool {
    match step {
        RecoveryView::Open { config, release: r } | RecoveryView::Find { config, release: r } => {
            stored == Some(config) && config.managed && r == release
        },
        RecoveryView::Block { config } => stored == Some(config) && config.managed && !release,
        RecoveryView::Restore { address, config } => {
            &&& stored == Some(config)
            &&& config.managed
            &&& release
            &&& address::parsed(config.address) == Ok::<Seq<u8>, Seq<char>>(address)
        },
        RecoveryView::Save { address, config } => {
            &&& release
            &&& stored matches Some(owned) && config == (ConfigView { managed: false, ..owned })
            &&& address::parsed(config.address) == Ok::<Seq<u8>, Seq<char>>(address)
            &&& outcomes.len() > 0 && outcomes.last() is None
            &&& steps[steps.len() - 2] is Restore
        },
        RecoveryView::Reblock { address, .. } => {
            &&& release
            &&& stored matches Some(owned) && address::parsed(owned.address) == Ok::<
                Seq<u8>,
                Seq<char>,
            >(address)
        },
        RecoveryView::Finished(_) => true,
    }
}

/// Only a device under control is touched. To guard it is to block it and nothing
/// else. To release it, its original setting is restored first; only then is it
/// stored that it was given up; and if that fails it is blocked again.
pub proof fn recovery_follows_the_stored_configuration(
    stored: Option<ConfigView>,
    release: bool,
    outcomes: Seq<Option<Seq<char>>>,
)
    ensures
        recovery(stored, release, outcomes).len() == outcomes.len() + 1,
        led_to(
            recovery(stored, release, outcomes).last(),
            stored,
            release,
            recovery(stored, release, outcomes),
            outcomes,
        ),
        recovery(stored, release, outcomes).last() matches RecoveryView::Save { .. } ==> forall|
            failed: Seq<char>,
        |
            #[trigger] recovery(stored, release, outcomes).last().after(Some(failed)) is Reblock,
    decreases outcomes.len(),
{
    if outcomes.len() > 0 {
        recovery_follows_the_stored_configuration(stored, release, outcomes.drop_last());
        let steps = recovery(stored, release, outcomes.drop_last());
        assert(recovery(stored, release, outcomes).drop_last() =~= steps);
    }
}

/// A recovery ends: after at most five steps it is finished, whatever happens.
pub proof fn recovery_ends(
    stored: Option<ConfigView>,
    release: bool,
    outcomes: Seq<Option<Seq<char>>>,
)
    requires
        outcomes.len() == 5,
    ensures
        recovery(stored, release, outcomes).last() is Finished,
{
    reveal_with_fuel(recovery, 6);
}

} // verus!
