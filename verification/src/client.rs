//! What a client does with a request.
use crate::control::{objection, response, WireCommand, WireCommandView};
use crate::storage::failure;
use crate::text;
use vstd::prelude::*;

verus! {

/// What is done next: find the runtime directory, connect to the daemon, send the
/// request, read a line, see whether it is a snapshot, print it. Without a daemon
/// a snapshot that says so is shown before the client fails, or the device is
/// released under the lock and the initial snapshot shown.
pub enum Errand {
    Locate,
    Connect,
    ShowOffline { reason: String, failure: String },
    Lock,
    Recover,
    ShowReleased,
    Send,
    Read { endless: bool },
    Validate { line: Vec<u8> },
    Print { line: Vec<u8> },
    Finished(Result<(), String>),
}

pub enum ErrandView {
    Locate,
    Connect,
    ShowOffline { reason: Seq<char>, failure: Seq<char> },
    Lock,
    Recover,
    ShowReleased,
    Send,
    Read { endless: bool },
    Validate { line: Seq<u8> },
    Print { line: Seq<u8> },
    Finished(Option<Seq<char>>),
}

impl View for Errand {
    type V = ErrandView;

    open spec fn view(&self) -> ErrandView {
        match self {
            Errand::Locate => ErrandView::Locate,
            Errand::Connect => ErrandView::Connect,
            Errand::ShowOffline { reason, failure } => ErrandView::ShowOffline {
                reason: reason@,
                failure: failure@,
            },
            Errand::Lock => ErrandView::Lock,
            Errand::Recover => ErrandView::Recover,
            Errand::ShowReleased => ErrandView::ShowReleased,
            Errand::Send => ErrandView::Send,
            Errand::Read { endless } => ErrandView::Read { endless: *endless },
            Errand::Validate { line } => ErrandView::Validate { line: line@ },
            Errand::Print { line } => ErrandView::Print { line: line@ },
            Errand::Finished(result) => ErrandView::Finished(failure(*result)),
        }
    }
}

/// How a step ended. A line is empty where the connection was closed.
pub enum Progress {
    Done,
    Line(Vec<u8>),
    TimedOut(String),
    Failed(String),
}

#[verifier::ext_equal]
pub enum ProgressView {
    Done,
    Line(Seq<u8>),
    TimedOut(Seq<char>),
    Failed(Seq<char>),
}

impl View for Progress {
    type V = ProgressView;

    open spec fn view(&self) -> ProgressView {
        match self {
            Progress::Done => ProgressView::Done,
            Progress::Line(line) => ProgressView::Line(line@),
            Progress::TimedOut(message) => ProgressView::TimedOut(message@),
            Progress::Failed(message) => ProgressView::Failed(message@),
        }
    }
}

impl WireCommandView {
    /// What a client does without a runtime directory.
    pub open spec fn unlocated(self, failure: Seq<char>) -> ErrandView {
        match self {
            WireCommandView::Status | WireCommandView::Watch => ErrandView::ShowOffline {
                reason: "airpodsd runtime directory is unavailable"@,
                failure,
            },
            _ => ErrandView::Finished(Some(failure)),
        }
    }

    /// What a client does without a daemon.
    pub open spec fn unconnected(self, failure: Seq<char>) -> ErrandView {
        match self {
            WireCommandView::Status | WireCommandView::Watch => ErrandView::ShowOffline {
                reason: "airpodsd daemon is unavailable"@,
                failure,
            },
            WireCommandView::Release => ErrandView::Lock,
            _ => ErrandView::Finished(Some(failure)),
        }
    }

    /// Whether a client goes on reading after a response.
    pub open spec fn endless(self) -> bool {
        self is Watch
    }
}

impl ErrandView {
    /// The step after one that ended in `progress`.
    pub open spec fn after(self, command: WireCommandView, progress: ProgressView) -> ErrandView {
        match (self, progress) {
            (ErrandView::Finished(_), _) => self,
            (ErrandView::Locate, ProgressView::Done) => ErrandView::Connect,
            (ErrandView::Locate, ProgressView::Failed(e)) => command.unlocated(e),
            (ErrandView::Connect, ProgressView::Done) => ErrandView::Send,
            (ErrandView::Connect, ProgressView::Failed(e)) => command.unconnected(
                "airpodsd daemon is unavailable: "@ + e,
            ),
            (ErrandView::ShowOffline { failure, .. }, ProgressView::Done) => ErrandView::Finished(
                Some(failure),
            ),
            (ErrandView::Lock, ProgressView::Done) => ErrandView::Recover,
            (ErrandView::Recover, ProgressView::Done) => ErrandView::ShowReleased,
            (ErrandView::ShowReleased, ProgressView::Done) => ErrandView::Finished(None),
            (ErrandView::Send, ProgressView::Done) => ErrandView::Read {
                endless: command.endless(),
            },
            (ErrandView::Read { .. }, ProgressView::Line(line)) => match objection(line) {
                None => ErrandView::Validate { line },
                Some(message) => ErrandView::Finished(Some(message)),
            },
            (ErrandView::Read { .. }, ProgressView::TimedOut(e)) => ErrandView::Finished(
                Some("daemon command timed out: "@ + e),
            ),
            (ErrandView::Validate { line }, ProgressView::Done) => ErrandView::Print { line },
            (ErrandView::Validate { .. }, ProgressView::Failed(e)) => ErrandView::Finished(
                Some("invalid snapshot schema: "@ + e),
            ),
            (ErrandView::Print { .. }, ProgressView::Done) => if command.endless() {
                ErrandView::Read { endless: true }
            } else {
                ErrandView::Finished(None)
            },
            (_, ProgressView::Failed(e)) | (_, ProgressView::TimedOut(e)) => ErrandView::Finished(
                Some(e),
            ),
            _ => self,
        }
    }
}

fn finished(message: String) -> (r: Errand)
    ensures
        r@ == ErrandView::Finished(Some(message@)),
{
    Errand::Finished(Err(message))
}

fn unlocated(command: &WireCommand, failure: String) -> (r: Errand)
    ensures
        r@ == command@.unlocated(failure@),
{
    match command {
        WireCommand::Status | WireCommand::Watch => Errand::ShowOffline {
            reason: "airpodsd runtime directory is unavailable".to_owned(),
            failure,
        },
        _ => finished(failure),
    }
}

fn unconnected(command: &WireCommand, failure: String) -> (r: Errand)
    ensures
        r@ == command@.unconnected(failure@),
{
    match command {
        WireCommand::Status | WireCommand::Watch => Errand::ShowOffline {
            reason: "airpodsd daemon is unavailable".to_owned(),
            failure,
        },
        WireCommand::Release => Errand::Lock,
        _ => finished(failure),
    }
}

fn heard(line: Vec<u8>) -> (r: Errand)
    ensures
        r@ == match objection(line@) {
            None => (ErrandView::Validate { line: line@ }),
            Some(message) => ErrandView::Finished(Some(message)),
        },
{
    match response(line.as_slice()) {
        Ok(_) => Errand::Validate { line },
        Err(message) => finished(message),
    }
}

impl Errand {
    /// The step that follows for a client with that request.
    pub fn after(self, command: &WireCommand, progress: Progress) -> (r: Errand)
        ensures
            r@ == self@.after(command@, progress@),
    {
        match (self, progress) {
            (Errand::Finished(result), _) => Errand::Finished(result),
            (Errand::Locate, Progress::Done) => Errand::Connect,
            (Errand::Locate, Progress::Failed(e)) => unlocated(command, e),
            (Errand::Connect, Progress::Done) => Errand::Send,
            (Errand::Connect, Progress::Failed(e)) => unconnected(
                command,
                text::join("airpodsd daemon is unavailable: ", e.as_str()),
            ),
            (Errand::ShowOffline { failure, .. }, Progress::Done) => finished(failure),
            (Errand::Lock, Progress::Done) => Errand::Recover,
            (Errand::Recover, Progress::Done) => Errand::ShowReleased,
            (Errand::ShowReleased, Progress::Done) => Errand::Finished(Ok(())),
            (Errand::Send, Progress::Done) => Errand::Read { endless: is_endless(command) },
            (Errand::Read { .. }, Progress::Line(line)) => heard(line),
            (Errand::Read { .. }, Progress::TimedOut(e)) => finished(
                text::join("daemon command timed out: ", e.as_str()),
            ),
            (Errand::Validate { line }, Progress::Done) => Errand::Print { line },
            (Errand::Validate { .. }, Progress::Failed(e)) => finished(
                text::join("invalid snapshot schema: ", e.as_str()),
            ),
            (Errand::Print { .. }, Progress::Done) => if is_endless(command) {
                Errand::Read { endless: true }
            } else {
                Errand::Finished(Ok(()))
            },
            (_, Progress::Failed(e)) => finished(e),
            (_, Progress::TimedOut(e)) => finished(e),
            (errand, _) => errand,
        }
    }
}

fn is_endless(command: &WireCommand) -> (r: bool)
    ensures
        r == command@.endless(),
{
    match command {
        WireCommand::Watch => true,
        _ => false,
    }
}

/// Where a client stands after the first steps ended as `ends` says.
pub open spec fn errand(command: WireCommandView, ends: Seq<ProgressView>) -> ErrandView
    decreases ends.len(),
{
    if ends.len() == 0 {
        ErrandView::Locate
    } else {
        errand(command, ends.drop_last()).after(command, ends.last())
    }
}

/// A client that only looks shows a snapshot that says what is wrong before it
/// fails for want of a daemon.
pub proof fn an_absent_daemon_is_shown_before_failing(
    command: WireCommandView,
    missing: Seq<char>,
    shown: ProgressView,
)
    requires
        command is Status || command is Watch,
        shown is Done || shown is Failed,
    ensures
        ({
            let located = errand(command, seq![ProgressView::Failed(missing)]);
            let connected = errand(
                command,
                seq![ProgressView::Done, ProgressView::Failed(missing)],
            );
            &&& located is ShowOffline
            &&& connected is ShowOffline
            &&& located.after(command, shown) matches ErrandView::Finished(Some(_))
            &&& connected.after(command, shown) matches ErrandView::Finished(Some(_))
        }),
{
    let one = seq![ProgressView::Failed(missing)];
    let two = seq![ProgressView::Done, ProgressView::Failed(missing)];
    assert(one.drop_last() =~= Seq::empty());
    assert(two.drop_last() =~= seq![ProgressView::Done]);
    assert(seq![ProgressView::Done].drop_last() =~= Seq::<ProgressView>::empty());
    reveal_with_fuel(errand, 3);
}

/// A client prints only lines that the daemon sent, that are neither empty nor too
/// long, that refuse nothing, and that were seen to hold a snapshot; and it ends
/// well only after it printed one, or released the device itself.
pub proof fn only_good_responses_are_printed(
    errand: ErrandView,
    command: WireCommandView,
    progress: ProgressView,
)
    ensures
        errand.after(command, progress) matches ErrandView::Validate { line } ==> errand
            == errand.after(command, progress) || (errand is Read && progress
            == ProgressView::Line(line) && objection(line) is None),
        errand.after(command, progress) matches ErrandView::Print { line } ==> errand
            == errand.after(command, progress) || (errand == (ErrandView::Validate { line })
            && progress is Done),
        (errand.after(command, progress) == ErrandView::Finished(None) && !(errand is Finished))
            ==> progress is Done && (errand is Print || errand is ShowReleased),
        (errand is Print && command is Watch && progress is Done) ==> errand.after(
            command,
            progress,
        ) is Read,
{
}

} // verus!
