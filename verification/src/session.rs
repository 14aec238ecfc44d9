//! How the daemon serves its clients.
use crate::control::{
    authorize, check_request, request_framed, serve, Service, ServiceView, Slots, WireCommand,
    WireCommandView, SLOTS,
};
use crate::daemon::Command;
use crate::policy::CommandView;
use crate::storage::failure;
use crate::text;
use vstd::prelude::*;

verus! {

/// What is done next for a client: see who it is, read a line, understand it, show
/// the present state, wait for another one, let the policy work on a request, and
/// pass its answer on.
pub enum Session {
    Peer,
    Request,
    Understand { line: Vec<u8> },
    Show { follow: bool },
    Follow,
    Forward { command: Command },
    Answer { refusal: Option<String> },
    Finished(Result<(), String>),
}

pub enum SessionView {
    Peer,
    Request,
    Understand { line: Seq<u8> },
    Show { follow: bool },
    Follow,
    Forward { command: CommandView },
    Answer { refusal: Option<Seq<char>> },
    Finished(Option<Seq<char>>),
}

impl View for Session {
    type V = SessionView;

    open spec fn view(&self) -> SessionView {
        match self {
            Session::Peer => SessionView::Peer,
            Session::Request => SessionView::Request,
            Session::Understand { line } => SessionView::Understand { line: line@ },
            Session::Show { follow } => SessionView::Show { follow: *follow },
            Session::Follow => SessionView::Follow,
            Session::Forward { command } => SessionView::Forward { command: command@ },
            Session::Answer { refusal } => SessionView::Answer { refusal: refusal.deep_view() },
            Session::Finished(result) => SessionView::Finished(failure(*result)),
        }
    }
}

/// What happened with a client.
pub enum Happening {
    Peer { peer: u32, user: u32 },
    Line(Vec<u8>),
    Command(WireCommand),
    Changed,
    Left,
    Answer(Result<(), String>),
    Done,
    Failed(String),
}

pub enum HappeningView {
    Peer { peer: u32, user: u32 },
    Line(Seq<u8>),
    Command(WireCommandView),
    Changed,
    Left,
    Answer(Option<Seq<char>>),
    Done,
    Failed(Seq<char>),
}

impl View for Happening {
    type V = HappeningView;

    open spec fn view(&self) -> HappeningView {
        match self {
            Happening::Peer { peer, user } => HappeningView::Peer { peer: *peer, user: *user },
            Happening::Line(line) => HappeningView::Line(line@),
            Happening::Command(command) => HappeningView::Command(command@),
            Happening::Changed => HappeningView::Changed,
            Happening::Left => HappeningView::Left,
            Happening::Answer(result) => HappeningView::Answer(failure(*result)),
            Happening::Done => HappeningView::Done,
            Happening::Failed(message) => HappeningView::Failed(message@),
        }
    }
}

impl SessionView {
    pub open spec fn served(command: WireCommandView) -> SessionView {
        match command.service() {
            ServiceView::Show => SessionView::Show { follow: false },
            ServiceView::Follow => SessionView::Show { follow: true },
            ServiceView::Forward(command) => SessionView::Forward { command },
        }
    }

    /// What is done after that happened.
    pub open spec fn after(self, happening: HappeningView) -> SessionView {
        match (self, happening) {
            (SessionView::Finished(_), _) => self,
            (SessionView::Understand { .. }, HappeningView::Failed(e)) => SessionView::Finished(
                Some("invalid control request: "@ + e),
            ),
            (_, HappeningView::Failed(e)) => SessionView::Finished(Some(e)),
            (SessionView::Peer, HappeningView::Peer { peer, user }) => if peer == user {
                SessionView::Request
            } else {
                SessionView::Finished(Some("control client has different ownership"@))
            },
            (SessionView::Request, HappeningView::Line(line)) => if request_framed(line) {
                SessionView::Understand { line }
            } else {
                SessionView::Finished(Some("invalid control request size"@))
            },
            (SessionView::Understand { .. }, HappeningView::Command(command)) => {
                SessionView::served(command)
            },
            (SessionView::Show { follow }, HappeningView::Done) => if follow {
                SessionView::Follow
            } else {
                SessionView::Finished(None)
            },
            (SessionView::Follow, HappeningView::Changed) => SessionView::Show { follow: true },
            (SessionView::Follow, HappeningView::Left) => SessionView::Finished(None),
            (SessionView::Forward { .. }, HappeningView::Answer(refusal)) => SessionView::Answer {
                refusal,
            },
            (SessionView::Answer { .. }, HappeningView::Done) => SessionView::Finished(None),
            _ => self,
        }
    }
}

fn checked(line: Vec<u8>) -> (r: Session)
    ensures
        r@ == if request_framed(line@) {
            (SessionView::Understand { line: line@ })
        } else {
            SessionView::Finished(Some("invalid control request size"@))
        },
{
    match check_request(line.as_slice()) {
        Ok(_) => Session::Understand { line },
        Err(message) => Session::Finished(Err(message)),
    }
}

fn served(command: WireCommand) -> (r: Session)
    ensures
        r@ == SessionView::served(command@),
{
    match serve(command) {
        Service::Show => Session::Show { follow: false },
        Service::Follow => Session::Show { follow: true },
        Service::Forward(command) => Session::Forward { command },
    }
}

impl Session {
    /// What is done after that happened.
    pub fn after(self, happening: Happening) -> (r: Session)
        ensures
            r@ == self@.after(happening@),
    {
        match (self, happening) {
            (Session::Finished(result), _) => Session::Finished(result),
            (Session::Understand { .. }, Happening::Failed(e)) => Session::Finished(
                Err(text::join("invalid control request: ", e.as_str())),
            ),
            (_, Happening::Failed(e)) => Session::Finished(Err(e)),
            (Session::Peer, Happening::Peer { peer, user }) => match authorize(peer, user) {
                Ok(_) => Session::Request,
                Err(message) => Session::Finished(Err(message)),
            },
            (Session::Request, Happening::Line(line)) => checked(line),
            (Session::Understand { .. }, Happening::Command(command)) => served(command),
            (Session::Show { follow }, Happening::Done) => if follow {
                Session::Follow
            } else {
                Session::Finished(Ok(()))
            },
            (Session::Follow, Happening::Changed) => Session::Show { follow: true },
            (Session::Follow, Happening::Left) => Session::Finished(Ok(())),
            (Session::Forward { .. }, Happening::Answer(result)) => Session::Answer {
                refusal: match result {
                    Ok(_) => None,
                    Err(message) => Some(message),
                },
            },
            (Session::Answer { .. }, Happening::Done) => Session::Finished(Ok(())),
            (session, _) => session,
        }
    }
}

/// Where a session stands after `events`.
pub open spec fn session(events: Seq<HappeningView>) -> SessionView
    decreases events.len(),
{
    if events.len() == 0 {
        SessionView::Peer
    } else {
        session(events.drop_last()).after(events.last())
    }
}

/// A client of the same user was seen before.
pub open spec fn trusted(events: Seq<HappeningView>) -> bool {
    exists|i: int|
        0 <= i < events.len() && (#[trigger] events[i] matches HappeningView::Peer { peer, user }
            && peer == user)
}

/// One whole request was read before.
pub open spec fn asked(events: Seq<HappeningView>) -> bool {
    exists|i: int|
        0 <= i < events.len() && (#[trigger] events[i] matches HappeningView::Line(line)
            && request_framed(line))
}

proof fn longer(events: Seq<HappeningView>)
    requires
        events.len() > 0,
    ensures
        trusted(events.drop_last()) ==> trusted(events),
        asked(events.drop_last()) ==> asked(events),
        (events.last() matches HappeningView::Peer { peer, user } && peer == user) ==> trusted(
            events,
        ),
        (events.last() matches HappeningView::Line(line) && request_framed(line)) ==> asked(events),
{
    let before = events.drop_last();
    if trusted(before) {
        let i = choose|i: int|
            0 <= i < before.len() && (#[trigger] before[i] matches HappeningView::Peer {
                peer,
                user,
            } && peer == user);
        assert(events[i] == before[i]);
    }
    if asked(before) {
        let i = choose|i: int|
            0 <= i < before.len() && (#[trigger] before[i] matches HappeningView::Line(line)
                && request_framed(line));
        assert(events[i] == before[i]);
    }
    assert(events[events.len() - 1] == events.last());
}

/// Nothing is read for a client of another user, and nothing is shown or forwarded
/// for one whose request was not read whole.
pub proof fn only_whole_requests_of_the_user_are_served(events: Seq<HappeningView>)
    ensures
        match session(events) {
            SessionView::Peer | SessionView::Finished(_) => true,
            SessionView::Request => trusted(events),
            _ => trusted(events) && asked(events),
        },
    decreases events.len(),
{
    if events.len() > 0 {
        only_whole_requests_of_the_user_are_served(events.drop_last());
        longer(events);
    }
}

/// What the daemon does next as a server: it waits, serves or turns away a client,
/// stops, or is over with a result.
pub enum Supervision {
    Wait,
    Serve,
    TurnAway,
    Stop,
    Over(Result<(), String>),
}

pub enum SupervisionView {
    Wait,
    Serve,
    TurnAway,
    Stop,
    Over(Option<Seq<char>>),
}

impl View for Supervision {
    type V = SupervisionView;

    open spec fn view(&self) -> SupervisionView {
        match self {
            Supervision::Wait => SupervisionView::Wait,
            Supervision::Serve => SupervisionView::Serve,
            Supervision::TurnAway => SupervisionView::TurnAway,
            Supervision::Stop => SupervisionView::Stop,
            Supervision::Over(result) => SupervisionView::Over(failure(*result)),
        }
    }
}

/// What happens to the daemon as a server.
pub enum Incident {
    Signal,
    PolicyEnded(Result<(), String>),
    Accepted,
    ClientGone,
}

/// What the daemon does about an incident while `taken` slots are taken, and how
/// many are taken then.
pub open spec fn supervised(taken: nat, incident: Incident) -> (nat, SupervisionView) {
    match incident {
        Incident::Signal => (taken, SupervisionView::Stop),
        Incident::PolicyEnded(result) => (taken, SupervisionView::Over(failure(result))),
        Incident::Accepted => if taken < SLOTS {
            (taken + 1, SupervisionView::Serve)
        } else {
            (taken, SupervisionView::TurnAway)
        },
        Incident::ClientGone => (
            if taken > 0 {
                (taken - 1) as nat
            } else {
                0
            },
            SupervisionView::Wait,
        ),
    }
}

/// What the daemon does about an incident.
pub fn supervise(slots: &mut Slots, incident: Incident) -> (r: Supervision)
    ensures
        (final(slots)@, r@) == supervised(old(slots)@, incident),
{
    match incident {
        Incident::Signal => Supervision::Stop,
        Incident::PolicyEnded(result) => Supervision::Over(result),
        Incident::Accepted => if slots.take() {
            Supervision::Serve
        } else {
            Supervision::TurnAway
        },
        Incident::ClientGone => {
            slots.leave();
            Supervision::Wait
        },
    }
}

/// No more clients are served at a time than there are slots.
pub proof fn slots_are_never_exceeded(taken: nat, incident: Incident)
    requires
        taken <= SLOTS,
    ensures
        supervised(taken, incident).0 <= SLOTS,
        supervised(taken, incident).1 is Serve ==> supervised(taken, incident).0 == taken + 1,
{
}

} // verus!
