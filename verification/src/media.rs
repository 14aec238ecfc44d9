//! Pausing media players when one bud comes out, and resuming what was paused
//! when it goes back in.
use crate::model::{Snapshot, SnapshotView};
use crate::text;
use vstd::prelude::*;

verus! {

/// How the device is worn, as far as that matters to media players.
#[derive(Clone, Copy, Debug, PartialEq, Eq, Structural)]
pub enum Wear {
    Both,
    One,
    Unavailable,
}

/// How a device is worn that is set up, connected, and both of whose ears are known.
pub open spec fn worn_as(snapshot: SnapshotView) -> Wear {
    if !snapshot.configured || !snapshot.connected {
        Wear::Unavailable
    } else if snapshot.in_ear == (Some(true), Some(true)) {
        Wear::Both
    } else if snapshot.in_ear == (Some(true), Some(false)) || snapshot.in_ear == (
        Some(false),
        Some(true),
    ) {
        Wear::One
    } else {
        Wear::Unavailable
    }
}

pub fn wear(snapshot: &Snapshot) -> (r: Wear)
    ensures
        r == worn_as(snapshot@),
{
    if !snapshot.configured || !snapshot.connected {
        return Wear::Unavailable;
    }
    match (snapshot.in_ear[0], snapshot.in_ear[1]) {
        (Some(true), Some(true)) => Wear::Both,
        (Some(true), Some(false)) => Wear::One,
        (Some(false), Some(true)) => Wear::One,
        _ => Wear::Unavailable,
    }
}

/// What a player plays, as far as it can be told apart.
pub struct Track {
    pub id: Option<String>,
    pub url: Option<String>,
}

#[verifier::ext_equal]
pub struct TrackView {
    pub id: Option<Seq<char>>,
    pub url: Option<Seq<char>>,
}

impl View for Track {
    type V = TrackView;

    open spec fn view(&self) -> TrackView {
        TrackView { id: self.id.deep_view(), url: self.url.deep_view() }
    }
}

impl TrackView {
    /// A track can be recognized again by its identifier or its address.
    pub open spec fn identified(self) -> bool {
        self.id is Some || self.url is Some
    }
}

fn same_text(a: &Option<String>, b: &Option<String>) -> (r: bool)
    ensures
        r == (a.deep_view() == b.deep_view()),
{
    match (a, b) {
        (Some(a), Some(b)) => text::same(a.as_str(), b.as_str()),
        (None, None) => true,
        _ => false,
    }
}

impl Track {
    /// Whether two tracks are the same one.
    pub fn same(&self, other: &Track) -> (r: bool)
        ensures
            r == (self@ == other@),
    {
        same_text(&self.id, &other.id) && same_text(&self.url, &other.url)
    }

    /// Whether the track can be recognized again.
    pub fn identified(&self) -> (r: bool)
        ensures
            r == self@.identified(),
    {
        self.id.is_some() || self.url.is_some()
    }
}

/// A player that was paused here, by its unique owner, and what it played.
pub struct PausedPlayer {
    pub owner: String,
    pub track: Track,
}

#[verifier::ext_equal]
pub struct PausedPlayerView {
    pub owner: Seq<char>,
    pub track: TrackView,
}

impl View for PausedPlayer {
    type V = PausedPlayerView;

    open spec fn view(&self) -> PausedPlayerView {
        PausedPlayerView { owner: self.owner@, track: self.track@ }
    }
}

impl DeepView for PausedPlayer {
    type V = PausedPlayerView;

    open spec fn deep_view(&self) -> PausedPlayerView {
        self@
    }
}

/// What is awaited, and for which player. `names` are the players that are still
/// to be paused, `rest` the records that are still to be looked at, `done` and
/// `kept` those that stay.
pub enum Media {
    Idle,
    Listing,
    Owner { names: Vec<String>, done: Vec<PausedPlayer> },
    Playing { names: Vec<String>, done: Vec<PausedPlayer>, owner: String },
    Pausable { names: Vec<String>, done: Vec<PausedPlayer>, owner: String },
    Identity { names: Vec<String>, done: Vec<PausedPlayer>, owner: String },
    Pausing { names: Vec<String>, done: Vec<PausedPlayer>, owner: String, track: Track },
    Confirming { names: Vec<String>, done: Vec<PausedPlayer>, owner: String, track: Track },
    Checking { rest: Vec<PausedPlayer>, record: PausedPlayer },
    Comparing { rest: Vec<PausedPlayer>, record: PausedPlayer },
    Resuming { rest: Vec<PausedPlayer> },
    Rechecking { rest: Vec<PausedPlayer>, kept: Vec<PausedPlayer>, record: PausedPlayer },
    Recomparing { rest: Vec<PausedPlayer>, kept: Vec<PausedPlayer>, record: PausedPlayer },
}

pub enum MediaView {
    Idle,
    Listing,
    Owner { names: Seq<Seq<char>>, done: Seq<PausedPlayerView> },
    Playing { names: Seq<Seq<char>>, done: Seq<PausedPlayerView>, owner: Seq<char> },
    Pausable { names: Seq<Seq<char>>, done: Seq<PausedPlayerView>, owner: Seq<char> },
    Identity { names: Seq<Seq<char>>, done: Seq<PausedPlayerView>, owner: Seq<char> },
    Pausing {
        names: Seq<Seq<char>>,
        done: Seq<PausedPlayerView>,
        owner: Seq<char>,
        track: TrackView,
    },
    Confirming {
        names: Seq<Seq<char>>,
        done: Seq<PausedPlayerView>,
        owner: Seq<char>,
        track: TrackView,
    },
    Checking { rest: Seq<PausedPlayerView>, record: PausedPlayerView },
    Comparing { rest: Seq<PausedPlayerView>, record: PausedPlayerView },
    Resuming { rest: Seq<PausedPlayerView> },
    Rechecking {
        rest: Seq<PausedPlayerView>,
        kept: Seq<PausedPlayerView>,
        record: PausedPlayerView,
    },
    Recomparing {
        rest: Seq<PausedPlayerView>,
        kept: Seq<PausedPlayerView>,
        record: PausedPlayerView,
    },
}

impl View for Media {
    type V = MediaView;

    open spec fn view(&self) -> MediaView {
        match self {
            Media::Idle => MediaView::Idle,
            Media::Listing => MediaView::Listing,
            Media::Owner { names, done } => MediaView::Owner {
                names: names.deep_view(),
                done: done.deep_view(),
            },
            Media::Playing { names, done, owner } => MediaView::Playing {
                names: names.deep_view(),
                done: done.deep_view(),
                owner: owner@,
            },
            Media::Pausable { names, done, owner } => MediaView::Pausable {
                names: names.deep_view(),
                done: done.deep_view(),
                owner: owner@,
            },
            Media::Identity { names, done, owner } => MediaView::Identity {
                names: names.deep_view(),
                done: done.deep_view(),
                owner: owner@,
            },
            Media::Pausing { names, done, owner, track } => MediaView::Pausing {
                names: names.deep_view(),
                done: done.deep_view(),
                owner: owner@,
                track: track@,
            },
            Media::Confirming { names, done, owner, track } => MediaView::Confirming {
                names: names.deep_view(),
                done: done.deep_view(),
                owner: owner@,
                track: track@,
            },
            Media::Checking { rest, record } => MediaView::Checking {
                rest: rest.deep_view(),
                record: record@,
            },
            Media::Comparing { rest, record } => MediaView::Comparing {
                rest: rest.deep_view(),
                record: record@,
            },
            Media::Resuming { rest } => MediaView::Resuming { rest: rest.deep_view() },
            Media::Rechecking { rest, kept, record } => MediaView::Rechecking {
                rest: rest.deep_view(),
                kept: kept.deep_view(),
                record: record@,
            },
            Media::Recomparing { rest, kept, record } => MediaView::Recomparing {
                rest: rest.deep_view(),
                kept: kept.deep_view(),
                record: record@,
            },
        }
    }
}

/// What is asked of the session bus, or that nothing is.
pub enum Ask {
    Names,
    Owner { name: String },
    Status { owner: String },
    CanPause { owner: String },
    Metadata { owner: String },
    Pause { owner: String },
    Play { owner: String },
    Wait,
}

#[verifier::ext_equal]
pub enum AskView {
    Names,
    Owner { name: Seq<char> },
    Status { owner: Seq<char> },
    CanPause { owner: Seq<char> },
    Metadata { owner: Seq<char> },
    Pause { owner: Seq<char> },
    Play { owner: Seq<char> },
    Wait,
}

impl View for Ask {
    type V = AskView;

    open spec fn view(&self) -> AskView {
        match self {
            Ask::Names => AskView::Names,
            Ask::Owner { name } => AskView::Owner { name: name@ },
            Ask::Status { owner } => AskView::Status { owner: owner@ },
            Ask::CanPause { owner } => AskView::CanPause { owner: owner@ },
            Ask::Metadata { owner } => AskView::Metadata { owner: owner@ },
            Ask::Pause { owner } => AskView::Pause { owner: owner@ },
            Ask::Play { owner } => AskView::Play { owner: owner@ },
            Ask::Wait => AskView::Wait,
        }
    }
}

/// What the session bus answers.
pub enum Told {
    Names(Vec<String>),
    Text(String),
    Flag(bool),
    Metadata(Track),
    Done,
    Failed,
}

#[verifier::ext_equal]
pub enum ToldView {
    Names(Seq<Seq<char>>),
    Text(Seq<char>),
    Flag(bool),
    Metadata(TrackView),
    Done,
    Failed,
}

impl View for Told {
    type V = ToldView;

    open spec fn view(&self) -> ToldView {
        match self {
            Told::Names(names) => ToldView::Names(names.deep_view()),
            Told::Text(text) => ToldView::Text(text@),
            Told::Flag(flag) => ToldView::Flag(*flag),
            Told::Metadata(track) => ToldView::Metadata(track@),
            Told::Done => ToldView::Done,
            Told::Failed => ToldView::Failed,
        }
    }
}

/// How it goes on: with a warning, if there is one, and with what is asked.
pub struct Step {
    pub warning: Option<String>,
    pub ask: Ask,
}

#[verifier::ext_equal]
pub struct StepView {
    pub warning: Option<Seq<char>>,
    pub ask: AskView,
}

impl View for Step {
    type V = StepView;

    open spec fn view(&self) -> StepView {
        StepView { warning: self.warning.deep_view(), ask: self.ask@ }
    }
}

/// Controls media players by how the device is worn.
pub struct Controller {
    pub previous: Wear,
    pub paused: Vec<PausedPlayer>,
    pub media: Media,
}

pub struct ControllerView {
    pub previous: Wear,
    pub paused: Seq<PausedPlayerView>,
    pub media: MediaView,
}

impl View for Controller {
    type V = ControllerView;

    open spec fn view(&self) -> ControllerView {
        ControllerView {
            previous: self.previous,
            paused: self.paused.deep_view(),
            media: self.media@,
        }
    }
}

pub type StepOf = (ControllerView, StepView);

/// The names of players among those on the bus.
pub open spec fn players(names: Seq<Seq<char>>) -> Seq<Seq<char>>
    decreases names.len(),
{
    if names.len() == 0 {
        Seq::empty()
    } else {
        let rest = players(names.drop_last());
        if text::stands_at(names.last(), "org.mpris.MediaPlayer2."@, 0) {
            rest.push(names.last())
        } else {
            rest
        }
    }
}

impl ControllerView {
    pub open spec fn ask(self, media: MediaView, ask: AskView) -> StepOf {
        (ControllerView { media, ..self }, StepView { warning: None, ask })
    }

    pub open spec fn hold(self, paused: Seq<PausedPlayerView>) -> StepOf {
        (
            ControllerView { paused, media: MediaView::Idle, ..self },
            StepView { warning: None, ask: AskView::Wait },
        )
    }

    /// Goes on with the next player to pause, while one bud is out.
    pub open spec fn next_pause(
        self,
        now: Wear,
        names: Seq<Seq<char>>,
        done: Seq<PausedPlayerView>,
    ) -> StepOf {
        if names.len() == 0 || now != Wear::One {
            self.hold(done)
        } else {
            self.ask(
                MediaView::Owner { names: names.skip(1), done },
                AskView::Owner { name: names[0] },
            )
        }
    }

    /// Goes on with the next record to resume, while both buds are in. Records that
    /// are not looked at any more are dropped.
    pub open spec fn next_resume(self, now: Wear, rest: Seq<PausedPlayerView>) -> StepOf {
        if rest.len() == 0 || now != Wear::Both {
            self.hold(Seq::empty())
        } else {
            self.ask(
                MediaView::Checking { rest: rest.skip(1), record: rest[0] },
                AskView::Status { owner: rest[0].owner },
            )
        }
    }

    /// Goes on with the next record that may have to be given up.
    pub open spec fn next_check(
        self,
        rest: Seq<PausedPlayerView>,
        kept: Seq<PausedPlayerView>,
    ) -> StepOf {
        if rest.len() == 0 {
            self.hold(kept)
        } else {
            self.ask(
                MediaView::Rechecking { rest: rest.skip(1), kept, record: rest[0] },
                AskView::Status { owner: rest[0].owner },
            )
        }
    }

    /// How the device is worn has changed to `current`; `now` is how it is worn by
    /// the time that something is done about it.
    pub open spec fn changed(self, current: Wear, now: Wear) -> StepOf {
        let noted = ControllerView { previous: current, ..self };
        let taken = ControllerView { paused: Seq::empty(), ..noted };
        match current {
            Wear::Unavailable => taken.hold(Seq::empty()),
            Wear::One => if self.previous == Wear::Both {
                noted.ask(MediaView::Listing, AskView::Names)
            } else {
                taken.next_check(self.paused, Seq::empty())
            },
            Wear::Both => taken.next_resume(now, self.paused),
        }
    }

    /// A player that could not be paused for certain.
    pub open spec fn unsure(
        self,
        now: Wear,
        names: Seq<Seq<char>>,
        done: Seq<PausedPlayerView>,
    ) -> StepOf {
        warned(
            self.next_pause(now, names, done),
            "A media player could not confirm pause/resume ownership"@,
        )
    }

    /// What the bus answered while players are being paused.
    pub open spec fn pausing(self, now: Wear, told: ToldView) -> StepOf {
        match (self.media, told) {
            (MediaView::Listing, ToldView::Names(names)) => self.next_pause(
                now,
                players(names),
                Seq::empty(),
            ),
            (MediaView::Listing, _) => warned(
                self.hold(self.paused),
                "Session media controls could not pause playback"@,
            ),
            (MediaView::Owner { names, done }, ToldView::Text(owner)) => self.ask(
                MediaView::Playing { names, done, owner },
                AskView::Status { owner },
            ),
            (MediaView::Playing { names, done, owner }, ToldView::Text(status)) => if status
                == "Playing"@ {
                self.ask(
                    MediaView::Pausable { names, done, owner },
                    AskView::CanPause { owner },
                )
            } else {
                self.next_pause(now, names, done)
            },
            (MediaView::Pausable { names, done, owner }, ToldView::Flag(able)) => if able {
                self.ask(
                    MediaView::Identity { names, done, owner },
                    AskView::Metadata { owner },
                )
            } else {
                self.next_pause(now, names, done)
            },
            (MediaView::Identity { names, done, owner }, ToldView::Metadata(track)) => if now
                == Wear::One {
                self.ask(
                    MediaView::Pausing { names, done, owner, track },
                    AskView::Pause { owner },
                )
            } else {
                self.next_pause(now, names, done)
            },
            (MediaView::Pausing { names, done, owner, track }, ToldView::Done) => self.ask(
                MediaView::Confirming { names, done, owner, track },
                AskView::Status { owner },
            ),
            (MediaView::Confirming { names, done, owner, track }, ToldView::Text(status)) => {
                if status == "Paused"@ && track.identified() {
                    self.next_pause(now, names, done.push(PausedPlayerView { owner, track }))
                } else {
                    self.unsure(now, names, done)
                }
            },
            (MediaView::Owner { names, done }, _) => self.unsure(now, names, done),
            (MediaView::Playing { names, done, .. }, _)
            | (MediaView::Pausable { names, done, .. }, _)
            | (MediaView::Identity { names, done, .. }, _)
            | (MediaView::Pausing { names, done, .. }, _)
            | (MediaView::Confirming { names, done, .. }, _) => self.unsure(now, names, done),
            _ => (self, StepView { warning: None, ask: AskView::Wait }),
        }
    }

    /// What the bus answered while records are being resumed or given up.
    pub open spec fn revisiting(self, now: Wear, told: ToldView) -> StepOf {
        match (self.media, told) {
            (MediaView::Checking { rest, record }, _) => if told == ToldView::Text("Paused"@) {
                self.ask(
                    MediaView::Comparing { rest, record },
                    AskView::Metadata { owner: record.owner },
                )
            } else {
                self.next_resume(now, rest)
            },
            (MediaView::Comparing { rest, record }, _) => if told == ToldView::Metadata(
                record.track,
            ) {
                if now == Wear::Both {
                    self.ask(
                        MediaView::Resuming { rest },
                        AskView::Play { owner: record.owner },
                    )
                } else {
                    self.hold(Seq::empty())
                }
            } else {
                self.next_resume(now, rest)
            },
            (MediaView::Resuming { rest }, ToldView::Done) => self.next_resume(now, rest),
            (MediaView::Resuming { rest }, _) => warned(
                self.next_resume(now, rest),
                "A media player could not resume playback"@,
            ),
            (MediaView::Rechecking { rest, kept, record }, _) => if told == ToldView::Text(
                "Paused"@,
            ) {
                self.ask(
                    MediaView::Recomparing { rest, kept, record },
                    AskView::Metadata { owner: record.owner },
                )
            } else {
                self.next_check(rest, kept)
            },
            (MediaView::Recomparing { rest, kept, record }, _) => if told == ToldView::Metadata(
                record.track,
            ) {
                self.next_check(rest, kept.push(record))
            } else {
                self.next_check(rest, kept)
            },
            _ => (self, StepView { warning: None, ask: AskView::Wait }),
        }
    }

    /// What the bus answered.
    pub open spec fn told(self, now: Wear, told: ToldView) -> StepOf {
        match self.media {
            MediaView::Idle => (self, StepView { warning: None, ask: AskView::Wait }),
            MediaView::Listing | MediaView::Owner { .. } | MediaView::Playing { .. }
            | MediaView::Pausable { .. } | MediaView::Identity { .. } | MediaView::Pausing { .. }
            | MediaView::Confirming { .. } => self.pausing(now, told),
            _ => self.revisiting(now, told),
        }
    }
}

/// The same step with a warning.
pub open spec fn warned(step: StepOf, message: Seq<char>) -> StepOf {
    (step.0, StepView { warning: Some(message), ..step.1 })
}

/// The names of players among those on the bus.
fn player_names(names: Vec<String>) -> (r: Vec<String>)
    ensures
        r.deep_view() == players(names.deep_view()),
{
    let ghost all = names@;
    let mut out: Vec<String> = Vec::new();
    assert(out.deep_view() =~= Seq::<Seq<char>>::empty());
    assert(names.deep_view().take(0) =~= Seq::<Seq<char>>::empty());
    for name in it: names
        invariant
            it.seq() == all,
            names@ == all,
            out.deep_view() == players(names.deep_view().take(it.index() as int)),
    {
        let ghost heard = names.deep_view().take(it.index() + 1);
        assert(name == all[it.index() as int]);
        assert(heard.drop_last() =~= names.deep_view().take(it.index() as int));
        assert(heard.last() == name@);
        if text::begins(name.as_str(), "org.mpris.MediaPlayer2.") {
            let ghost before = out.deep_view();
            out.push(name);
            assert(out.deep_view() =~= before.push(name@));
        }
    }
    assert(names.deep_view().take(all.len() as int) =~= names.deep_view());
    out
}

/// The step that was taken.
pub open spec fn step_of(controller: Controller, step: Step) -> StepOf {
    (controller@, step@)
}

impl Controller {
    /// Nothing is worn and nothing is paused.
    pub fn new() -> (r: Controller)
        ensures
            r@ == (ControllerView {
                previous: Wear::Unavailable,
                paused: Seq::empty(),
                media: MediaView::Idle,
            }),
    {
        let paused: Vec<PausedPlayer> = Vec::new();
        assert(paused.deep_view() =~= Seq::<PausedPlayerView>::empty());
        Controller { previous: Wear::Unavailable, paused, media: Media::Idle }
    }

    fn ask(&mut self, media: Media, ask: Ask) -> (r: Step)
        ensures
            step_of(*final(self), r) == old(self)@.ask(media@, ask@),
    {
        self.media = media;
        Step { warning: None, ask }
    }

    fn hold(&mut self, paused: Vec<PausedPlayer>) -> (r: Step)
        ensures
            step_of(*final(self), r) == old(self)@.hold(paused.deep_view()),
    {
        self.paused = paused;
        self.media = Media::Idle;
        Step { warning: None, ask: Ask::Wait }
    }

    fn next_pause(&mut self, now: Wear, names: Vec<String>, done: Vec<PausedPlayer>) -> (r: Step)
        ensures
            step_of(*final(self), r) == old(self)@.next_pause(
                now,
                names.deep_view(),
                done.deep_view(),
            ),
    {
        if names.len() == 0 || now != Wear::One {
            return self.hold(done);
        }
        let ghost all = names.deep_view();
        let mut names = names;
        let name = names.remove(0);
        assert(names.deep_view() =~= all.skip(1));
        self.ask(Media::Owner { names, done }, Ask::Owner { name })
    }

    fn next_resume(&mut self, now: Wear, rest: Vec<PausedPlayer>) -> (r: Step)
        ensures
            step_of(*final(self), r) == old(self)@.next_resume(now, rest.deep_view()),
    {
        if rest.len() == 0 || now != Wear::Both {
            let paused: Vec<PausedPlayer> = Vec::new();
            assert(paused.deep_view() =~= Seq::<PausedPlayerView>::empty());
            return self.hold(paused);
        }
        let ghost all = rest.deep_view();
        let mut rest = rest;
        let record = rest.remove(0);
        assert(rest.deep_view() =~= all.skip(1));
        let owner = record.owner.clone();
        self.ask(Media::Checking { rest, record }, Ask::Status { owner })
    }

    fn next_check(&mut self, rest: Vec<PausedPlayer>, kept: Vec<PausedPlayer>) -> (r: Step)
        ensures
            step_of(*final(self), r) == old(self)@.next_check(rest.deep_view(), kept.deep_view()),
    {
        if rest.len() == 0 {
            return self.hold(kept);
        }
        let ghost all = rest.deep_view();
        let mut rest = rest;
        let record = rest.remove(0);
        assert(rest.deep_view() =~= all.skip(1));
        let owner = record.owner.clone();
        self.ask(Media::Rechecking { rest, kept, record }, Ask::Status { owner })
    }

    /// Takes up that the device is now worn as `current`; `now` is how it is worn by
    /// the time that something is done about it.
    pub fn changed(&mut self, current: Wear, now: Wear) -> (r: Step)
        ensures
            step_of(*final(self), r) == old(self)@.changed(current, now),
    {
        let before = self.previous;
        let mut paused: Vec<PausedPlayer> = Vec::new();
        assert(paused.deep_view() =~= Seq::<PausedPlayerView>::empty());
        std::mem::swap(&mut paused, &mut self.paused);
        self.previous = current;
        let none: Vec<PausedPlayer> = Vec::new();
        assert(none.deep_view() =~= Seq::<PausedPlayerView>::empty());
        match current {
            Wear::Unavailable => self.hold(none),
            Wear::One => {
                if before == Wear::Both {
                    self.paused = paused;
                    self.ask(Media::Listing, Ask::Names)
                } else {
                    self.next_check(paused, none)
                }
            },
            Wear::Both => self.next_resume(now, paused),
        }
    }

    fn unsure(&mut self, now: Wear, names: Vec<String>, done: Vec<PausedPlayer>) -> (r: Step)
        ensures
            step_of(*final(self), r) == old(self)@.unsure(now, names.deep_view(), done.deep_view()),
    {
        let step = self.next_pause(now, names, done);
        Step {
            warning: Some("A media player could not confirm pause/resume ownership".to_owned()),
            ask: step.ask,
        }
    }

    fn pausing(&mut self, now: Wear, media: Media, told: Told) -> (r: Step)
        ensures
            step_of(*final(self), r) == (ControllerView { media: media@, ..old(self)@ }).pausing(
                now,
                told@,
            ),
    {
        match (media, told) {
            (Media::Listing, Told::Names(names)) => {
                let done: Vec<PausedPlayer> = Vec::new();
                assert(done.deep_view() =~= Seq::<PausedPlayerView>::empty());
                let names = player_names(names);
                self.next_pause(now, names, done)
            },
            (Media::Listing, _) => {
                self.media = Media::Idle;
                Step {
                    warning: Some("Session media controls could not pause playback".to_owned()),
                    ask: Ask::Wait,
                }
            },
            (Media::Owner { names, done }, Told::Text(owner)) => {
                let asked = owner.clone();
                self.ask(Media::Playing { names, done, owner }, Ask::Status { owner: asked })
            },
            (Media::Playing { names, done, owner }, Told::Text(status)) => {
                if text::same(status.as_str(), "Playing") {
                    let asked = owner.clone();
                    self.ask(
                        Media::Pausable { names, done, owner },
                        Ask::CanPause { owner: asked },
                    )
                } else {
                    self.next_pause(now, names, done)
                }
            },
            (Media::Pausable { names, done, owner }, Told::Flag(able)) => {
                if able {
                    let asked = owner.clone();
                    self.ask(
                        Media::Identity { names, done, owner },
                        Ask::Metadata { owner: asked },
                    )
                } else {
                    self.next_pause(now, names, done)
                }
            },
            (Media::Identity { names, done, owner }, Told::Metadata(track)) => {
                if now == Wear::One {
                    let asked = owner.clone();
                    self.ask(
                        Media::Pausing { names, done, owner, track },
                        Ask::Pause { owner: asked },
                    )
                } else {
                    self.next_pause(now, names, done)
                }
            },
            (Media::Pausing { names, done, owner, track }, Told::Done) => {
                let asked = owner.clone();
                self.ask(
                    Media::Confirming { names, done, owner, track },
                    Ask::Status { owner: asked },
                )
            },
            (Media::Confirming { names, done, owner, track }, Told::Text(status)) => {
                if text::same(status.as_str(), "Paused") && track.identified() {
                    let ghost before = done.deep_view();
                    let record = PausedPlayer { owner, track };
                    let mut done = done;
                    done.push(record);
                    assert(done.deep_view() =~= before.push(record@));
                    self.next_pause(now, names, done)
                } else {
                    self.unsure(now, names, done)
                }
            },
            (Media::Owner { names, done }, _) => self.unsure(now, names, done),
            (Media::Playing { names, done, .. }, _) => self.unsure(now, names, done),
            (Media::Pausable { names, done, .. }, _) => self.unsure(now, names, done),
            (Media::Identity { names, done, .. }, _) => self.unsure(now, names, done),
            (Media::Pausing { names, done, .. }, _) => self.unsure(now, names, done),
            (Media::Confirming { names, done, .. }, _) => self.unsure(now, names, done),
            (media, _) => self.ask(media, Ask::Wait),
        }
    }

    fn revisiting(&mut self, now: Wear, media: Media, told: Told) -> (r: Step)
        ensures
            step_of(*final(self), r) == (ControllerView { media: media@, ..old(self)@ }).revisiting(
                now,
                told@,
            ),
    {
        let paused = is_paused(&told);
        match media {
            Media::Checking { rest, record } => {
                if paused {
                    let owner = record.owner.clone();
                    self.ask(Media::Comparing { rest, record }, Ask::Metadata { owner })
                } else {
                    self.next_resume(now, rest)
                }
            },
            Media::Comparing { rest, record } => {
                if plays(&told, &record.track) {
                    if now == Wear::Both {
                        self.ask(Media::Resuming { rest }, Ask::Play { owner: record.owner })
                    } else {
                        let none: Vec<PausedPlayer> = Vec::new();
                        assert(none.deep_view() =~= Seq::<PausedPlayerView>::empty());
                        self.hold(none)
                    }
                } else {
                    self.next_resume(now, rest)
                }
            },
            Media::Resuming { rest } => {
                let step = self.next_resume(now, rest);
                match told {
                    Told::Done => step,
                    _ => Step {
                        warning: Some("A media player could not resume playback".to_owned()),
                        ask: step.ask,
                    },
                }
            },
            Media::Rechecking { rest, kept, record } => {
                if paused {
                    let owner = record.owner.clone();
                    self.ask(Media::Recomparing { rest, kept, record }, Ask::Metadata { owner })
                } else {
                    self.next_check(rest, kept)
                }
            },
            Media::Recomparing { rest, kept, record } => {
                if plays(&told, &record.track) {
                    let ghost before = kept.deep_view();
                    let mut kept = kept;
                    kept.push(record);
                    assert(kept.deep_view() =~= before.push(record@));
                    self.next_check(rest, kept)
                } else {
                    self.next_check(rest, kept)
                }
            },
            media => self.ask(media, Ask::Wait),
        }
    }

    /// Goes on with what the bus answered; `now` is how the device is worn by then.
    pub fn told(&mut self, now: Wear, told: Told) -> (r: Step)
        ensures
            step_of(*final(self), r) == old(self)@.told(now, told@),
    {
        let mut media = Media::Idle;
        std::mem::swap(&mut media, &mut self.media);
        match media {
            Media::Idle => self.ask(Media::Idle, Ask::Wait),
            Media::Listing | Media::Owner { .. } | Media::Playing { .. } | Media::Pausable { .. }
            | Media::Identity { .. } | Media::Pausing { .. } | Media::Confirming { .. } => {
                self.pausing(now, media, told)
            },
            _ => self.revisiting(now, media, told),
        }
    }
}

fn is_paused(told: &Told) -> (r: bool)
    ensures
        r == (told@ == ToldView::Text("Paused"@)),
{
    match told {
        Told::Text(status) => text::same(status.as_str(), "Paused"),
        _ => false,
    }
}

fn plays(told: &Told, track: &Track) -> (r: bool)
    ensures
        r == (told@ == ToldView::Metadata(track@)),
{
    match told {
        Told::Metadata(other) => other.same(track),
        _ => false,
    }
}

impl ControllerView {
    /// A record that is held, wherever it is held.
    pub open spec fn holds(self, record: PausedPlayerView) -> bool {
        self.paused.contains(record) || match self.media {
            MediaView::Idle | MediaView::Listing => false,
            MediaView::Owner { done, .. } | MediaView::Playing { done, .. }
            | MediaView::Pausable { done, .. } | MediaView::Identity { done, .. }
            | MediaView::Pausing { done, .. } | MediaView::Confirming { done, .. } => {
                done.contains(record)
            },
            MediaView::Checking { rest, record: next }
            | MediaView::Comparing { rest, record: next } => record == next || rest.contains(
                record,
            ),
            MediaView::Resuming { rest } => rest.contains(record),
            MediaView::Rechecking { rest, kept, record: next }
            | MediaView::Recomparing { rest, kept, record: next } => record == next
                || rest.contains(record) || kept.contains(record),
        }
    }
}

proof fn the_first_is_one_of_all(all: Seq<PausedPlayerView>, record: PausedPlayerView)
    requires
        all.len() > 0,
    ensures
        all.contains(all[0]),
        all.skip(1).contains(record) ==> all.contains(record),
{
    if all.skip(1).contains(record) {
        let i = choose|i: int| 0 <= i < all.skip(1).len() && all.skip(1)[i] == record;
        assert(all[i + 1] == record);
    }
}

proof fn the_last_is_the_new_one(
    all: Seq<PausedPlayerView>,
    new: PausedPlayerView,
    record: PausedPlayerView,
)
    ensures
        all.push(new).contains(record) ==> all.contains(record) || record == new,
{
    if all.push(new).contains(record) {
        let i = choose|i: int| 0 <= i < all.push(new).len() && all.push(new)[i] == record;
        if i < all.len() {
            assert(all[i] == record);
        }
    }
}

proof fn visits_keep_records(
    controller: ControllerView,
    now: Wear,
    rest: Seq<PausedPlayerView>,
    kept: Seq<PausedPlayerView>,
    record: PausedPlayerView,
)
    ensures
        controller.next_resume(now, rest).0.holds(record) ==> controller.paused.contains(record)
            || rest.contains(record),
        controller.next_check(rest, kept).0.holds(record) ==> controller.paused.contains(record)
            || rest.contains(record) || kept.contains(record),
{
    if rest.len() > 0 {
        the_first_is_one_of_all(rest, record);
    }
}

/// A record is made when the player whose pausing was asked for and done (the only
/// way to `Confirming`, see [`only_playing_players_are_paused`]) says that it is
/// paused, if its track can be recognized again.
pub open spec fn confirmed(
    controller: ControllerView,
    told: ToldView,
    record: PausedPlayerView,
) -> bool {
    controller.media matches MediaView::Confirming { owner, track, .. } && record
        == (PausedPlayerView { owner, track }) && track.identified() && told == ToldView::Text(
        "Paused"@,
    )
}

/// Nothing becomes a record but what was paused here and confirmed it.
pub proof fn records_are_of_paused_players(
    controller: ControllerView,
    now: Wear,
    told: ToldView,
    record: PausedPlayerView,
)
    ensures
        controller.told(now, told).0.holds(record) ==> controller.holds(record) || confirmed(
            controller,
            told,
            record,
        ),
{
    match controller.media {
        MediaView::Confirming { done, owner, track, .. } => {
            the_last_is_the_new_one(done, PausedPlayerView { owner, track }, record);
        },
        MediaView::Checking { rest, .. } | MediaView::Comparing { rest, .. }
        | MediaView::Resuming { rest } => {
            visits_keep_records(controller, now, rest, Seq::empty(), record);
        },
        MediaView::Rechecking { rest, kept, .. } => {
            visits_keep_records(controller, now, rest, kept, record);
        },
        MediaView::Recomparing { rest, kept, record: next } => {
            visits_keep_records(controller, now, rest, kept, record);
            visits_keep_records(controller, now, rest, kept.push(next), record);
            the_last_is_the_new_one(kept, next, record);
        },
        _ => {},
    }
}

/// A change of how the device is worn makes no record.
pub proof fn changes_make_no_record(
    controller: ControllerView,
    current: Wear,
    now: Wear,
    record: PausedPlayerView,
)
    ensures
        controller.changed(current, now).0.holds(record) ==> controller.holds(record),
{
    let taken = ControllerView { previous: current, paused: Seq::empty(), ..controller };
    visits_keep_records(taken, now, controller.paused, Seq::empty(), record);
}

/// A player is resumed only while both buds are in, only if it still says that it
/// is paused, and only if it still plays the track that it was paused in.
pub proof fn only_what_was_paused_is_resumed(controller: ControllerView, now: Wear, told: ToldView)
    ensures
        controller.told(now, told).1.ask matches AskView::Play { owner } ==> now == Wear::Both && (
        controller.media matches MediaView::Comparing { record, .. } && record.owner == owner
            && told == ToldView::Metadata(record.track)),
        controller.told(now, told).0.media matches MediaView::Comparing { record, .. } ==> (
        controller.media matches MediaView::Checking { record: checked, .. } && checked == record
            && told == ToldView::Text("Paused"@)),
{
}

/// A player is paused only while exactly one bud is in, only if it plays and can
/// be paused; and it is waited for its confirmation only after it was asked to
/// pause and did.
pub proof fn only_playing_players_are_paused(
    controller: ControllerView,
    now: Wear,
    told: ToldView,
)
    ensures
        controller.told(now, told).0.media matches MediaView::Confirming { owner, track, .. } ==> (
        controller.media matches MediaView::Pausing { owner: o, track: t, .. } && o == owner && t
            == track && told is Done),
        controller.told(now, told).0.media matches MediaView::Pausing { owner, track, .. } ==> (
        controller.media matches MediaView::Identity { owner: o, .. } && o == owner && told
            == ToldView::Metadata(track) && now == Wear::One && controller.told(now, told).1.ask
            == (AskView::Pause { owner })),
        controller.told(now, told).1.ask is Pause ==> now == Wear::One && controller.media
            is Identity,
        controller.told(now, told).0.media is Identity ==> controller.media is Pausable && told
            == ToldView::Flag(true),
        controller.told(now, told).0.media is Pausable ==> controller.media is Playing && told
            == ToldView::Text("Playing"@),
{
}

/// Nothing is resumed after the link was lost, the device released or the ears
/// unknown: all records are gone, and both buds going in then asks nothing.
pub proof fn losing_the_device_revokes_every_record(
    controller: ControllerView,
    now: Wear,
    later: Wear,
)
    ensures
        ({
            let (lost, step) = controller.changed(Wear::Unavailable, now);
            &&& forall|record: PausedPlayerView| !lost.holds(record)
            &&& step.ask == AskView::Wait
            &&& lost.changed(Wear::Both, later).1.ask == AskView::Wait
            &&& lost.changed(Wear::One, later).1.ask == AskView::Wait
        }),
{
}

/// A player that was started by hand, or plays another track, loses its record.
pub proof fn changed_players_lose_their_record(
    controller: ControllerView,
    now: Wear,
    told: ToldView,
)
    ensures
        match controller.media {
            MediaView::Checking { rest, .. } => told != ToldView::Text("Paused"@)
                ==> controller.told(now, told) == controller.next_resume(now, rest),
            MediaView::Comparing { rest, record } => told != ToldView::Metadata(record.track)
                ==> controller.told(now, told) == controller.next_resume(now, rest),
            MediaView::Rechecking { rest, kept, .. } => told != ToldView::Text("Paused"@)
                ==> controller.told(now, told) == controller.next_check(rest, kept),
            MediaView::Recomparing { rest, kept, record } => told != ToldView::Metadata(
                record.track,
            ) ==> controller.told(now, told) == controller.next_check(rest, kept),
            _ => true,
        },
{
}

/// What reaches the controller: a change of how the device is worn, or an answer of
/// the bus; `now` is how the device is worn by then.
pub enum NewsView {
    Changed { current: Wear, now: Wear },
    Told { now: Wear, told: ToldView },
}

impl ControllerView {
    pub open spec fn takes(self, news: NewsView) -> StepOf {
        match news {
            NewsView::Changed { current, now } => self.changed(current, now),
            NewsView::Told { now, told } => self.told(now, told),
        }
    }
}

/// Where a run of the controller stands after all of `news`, and what it asks then.
pub open spec fn controlled(news: Seq<NewsView>) -> StepOf
    decreases news.len(),
{
    if news.len() == 0 {
        (
            ControllerView {
                previous: Wear::Unavailable,
                paused: Seq::empty(),
                media: MediaView::Idle,
            },
            StepView { warning: None, ask: AskView::Wait },
        )
    } else {
        controlled(news.drop_last()).0.takes(news.last())
    }
}

/// The device was lost or released, an ear is not known, or both buds are out.
pub open spec fn loses(news: NewsView) -> bool {
    news matches NewsView::Changed { current, .. } && current == Wear::Unavailable
}

/// In a run the record was earned at `p`: the player told its track while exactly
/// one bud was in and was asked to pause, it did, it said that it is paused, its
/// track can be recognized again, and the device was not lost since.
pub open spec fn earned(news: Seq<NewsView>, record: PausedPlayerView, p: int) -> bool {
    &&& 0 <= p < news.len() - 2
    &&& news[p] == (NewsView::Told { now: Wear::One, told: ToldView::Metadata(record.track) })
    &&& controlled(news.take(p + 1)).1.ask == (AskView::Pause { owner: record.owner })
    &&& news[p + 1] matches NewsView::Told { told, .. } && told is Done
    &&& news[p + 2] matches NewsView::Told { told, .. } && told == ToldView::Text("Paused"@)
    &&& record.track.identified()
    &&& forall|i: int| p < i < news.len() ==> !loses(#[trigger] news[i])
}

proof fn what_was_earned_stays_earned(news: Seq<NewsView>, record: PausedPlayerView, p: int)
    requires
        news.len() > 0,
        earned(news.drop_last(), record, p),
        !loses(news.last()),
    ensures
        earned(news, record, p),
{
    let before = news.drop_last();
    assert(before.take(p + 1) =~= news.take(p + 1));
    assert forall|i: int| p < i < news.len() implies !loses(#[trigger] news[i]) by {
        if i < before.len() {
            assert(before[i] == news[i]);
        }
    }
}

/// A run that waits for a confirmation has just asked the player to pause.
proof fn confirmations_follow_a_pause(news: Seq<NewsView>)
    ensures
        controlled(news).0.media matches MediaView::Confirming { owner, track, .. } ==> {
            &&& news.len() >= 2
            &&& news[news.len() - 2] == (NewsView::Told {
                now: Wear::One,
                told: ToldView::Metadata(track),
            })
            &&& controlled(news.take(news.len() - 1)).1.ask == (AskView::Pause { owner })
            &&& news.last() matches NewsView::Told { told, .. } && told is Done
        },
{
    if controlled(news).0.media is Confirming {
        let one = news.drop_last();
        let pausing = controlled(one).0;
        if let NewsView::Told { now, told } = news.last() {
            only_playing_players_are_paused(pausing, now, told);
        }
        assert(pausing.media is Pausing);
        assert(one.len() > 0);
        if let NewsView::Told { now, told } = one.last() {
            only_playing_players_are_paused(controlled(one.drop_last()).0, now, told);
        }
        assert(one.last() == news[news.len() - 2]);
        assert(news.take(news.len() - 1) =~= one);
    }
}

/// Every record that a run holds was earned in it.
pub proof fn records_are_earned(news: Seq<NewsView>, record: PausedPlayerView)
    ensures
        controlled(news).0.holds(record) ==> exists|p: int| earned(news, record, p),
    decreases news.len(),
{
    if news.len() > 0 && controlled(news).0.holds(record) {
        let before = news.drop_last();
        let controller = controlled(before).0;
        records_are_earned(before, record);
        confirmations_follow_a_pause(before);
        match news.last() {
            NewsView::Changed { current, now } => {
                changes_make_no_record(controller, current, now, record);
                losing_the_device_revokes_every_record(controller, now, now);
            },
            NewsView::Told { now, told } => {
                records_are_of_paused_players(controller, now, told, record);
            },
        }
        if controller.holds(record) {
            let p = choose|p: int| earned(before, record, p);
            what_was_earned_stays_earned(news, record, p);
        } else {
            let p = news.len() - 3;
            assert(before.take(before.len() - 1) =~= news.take(p + 1));
            assert(before[before.len() - 2] == news[p]);
            assert(before.last() == news[p + 1]);
            assert(news.last() == news[p + 2]);
            assert(earned(news, record, p));
        }
    }
}

/// In every run a player is asked to play only if it was asked here to pause, did,
/// confirmed it, and the device was not lost since; and only while both buds are
/// in, right after it said that it is still paused in the same track.
pub proof fn only_players_that_were_paused_here_are_resumed(news: Seq<NewsView>)
    ensures
        controlled(news).1.ask matches AskView::Play { owner } ==> exists|
            record: PausedPlayerView,
            p: int,
        |
            {
                &&& #[trigger] earned(news, record, p)
                &&& record.owner == owner
                &&& news.last() == (NewsView::Told {
                    now: Wear::Both,
                    told: ToldView::Metadata(record.track),
                })
                &&& news[news.len() - 2] matches NewsView::Told { told, .. } && told
                    == ToldView::Text("Paused"@)
            },
{
    if let AskView::Play { owner } = controlled(news).1.ask {
        assert(news.len() > 0);
        let before = news.drop_last();
        let comparing = controlled(before).0;
        if let NewsView::Told { now, told } = news.last() {
            only_what_was_paused_is_resumed(comparing, now, told);
        }
        assert(comparing.media is Comparing);
        let record = comparing.media->Comparing_record;
        assert(before.len() > 0);
        if let NewsView::Told { now, told } = before.last() {
            only_what_was_paused_is_resumed(controlled(before.drop_last()).0, now, told);
        }
        assert(before.last() == news[news.len() - 2]);
        records_are_earned(before, record);
        let p = choose|p: int| earned(before, record, p);
        what_was_earned_stays_earned(news, record, p);
    }
}

impl ControllerView {
    /// How many records are held.
    pub open spec fn held(self) -> int {
        self.paused.len() + match self.media {
            MediaView::Idle | MediaView::Listing => 0,
            MediaView::Owner { done, .. } | MediaView::Playing { done, .. }
            | MediaView::Pausable { done, .. } | MediaView::Identity { done, .. }
            | MediaView::Pausing { done, .. } | MediaView::Confirming { done, .. } => {
                done.len() as int
            },
            MediaView::Checking { rest, .. } | MediaView::Comparing { rest, .. } => {
                rest.len() + 1int
            },
            MediaView::Resuming { rest } => rest.len() as int,
            MediaView::Rechecking { rest, kept, .. }
            | MediaView::Recomparing { rest, kept, .. } => rest.len() + kept.len() + 1int,
        }
    }
}

/// How often, in a run, a player was asked to pause.
pub open spec fn pauses(news: Seq<NewsView>) -> int
    decreases news.len(),
{
    if news.len() == 0 {
        0
    } else if controlled(news).1.ask is Pause {
        pauses(news.drop_last()) + 1
    } else {
        pauses(news.drop_last())
    }
}

/// How often, in a run, a player was asked to play.
pub open spec fn plays_asked(news: Seq<NewsView>) -> int
    decreases news.len(),
{
    if news.len() == 0 {
        0
    } else if controlled(news).1.ask is Play {
        plays_asked(news.drop_last()) + 1
    } else {
        plays_asked(news.drop_last())
    }
}

/// In every run players are asked to play no more often than players were asked to
/// pause; every record held, and a pause that is still to be confirmed, can count
/// for one more.
pub proof fn no_more_is_resumed_than_was_paused(news: Seq<NewsView>)
    ensures
        plays_asked(news) + controlled(news).0.held() + (if controlled(news).0.media is Pausing
            || controlled(news).0.media is Confirming {
            1int
        } else {
            0
        }) <= pauses(news),
        plays_asked(news) <= pauses(news),
    decreases news.len(),
{
    if news.len() > 0 {
        no_more_is_resumed_than_was_paused(news.drop_last());
    }
}

} // verus!
