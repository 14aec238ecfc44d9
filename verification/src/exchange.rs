//! What passes between a client and the daemon, from the first step to the last.
use crate::address;
use crate::client::{ErrandView, ProgressView};
use crate::control::{
    framed, invocation, mode_named, objection, offline, refusal, request_framed, starting,
    InvocationView, WireCommandView,
};
use crate::json::{self, JsonView};
use crate::model::{Cell, Mode, SnapshotView};
use crate::policy::CommandView;
use crate::session::{supervised, HappeningView, Incident, SessionView, SupervisionView};
use crate::storage::ConfigView;
use vstd::prelude::*;

verus! {

/// A request is one line of at most 4096 bytes, with the newline that ends it.
pub proof fn requests_are_lines(line: Seq<u8>)
    ensures
        request_framed(line) <==> 1 <= line.len() <= 4096 && line[line.len() - 1] == 10,
        crate::control::END == 10,
        crate::control::REQUEST_LIMIT == 4096,
        crate::control::RESPONSE_LIMIT == 65536,
        crate::control::SLOTS == 16,
{
}

/// A message is sent as it is, with one newline after it.
pub proof fn messages_end_with_a_newline(bytes: Seq<u8>)
    ensures
        framed(bytes) == bytes + seq![10u8],
{
    assert(bytes.push(10) =~= bytes + seq![10u8]);
}

/// A client that runs for the user of the daemon and sends a whole line is asked for
/// nothing more; one that does not is told why and nothing else happens.
pub proof fn clients_are_let_in(peer: u32, user: u32, line: Seq<u8>)
    ensures
        ({
            let met = SessionView::Peer.after(HappeningView::Peer { peer, user });
            let heard = SessionView::Request.after(HappeningView::Line(line));
            &&& peer == user ==> met is Request
            &&& peer != user ==> met == SessionView::Finished(
                Some("control client has different ownership"@),
            )
            &&& 1 <= line.len() <= 4096 && line[line.len() - 1] == 10 ==> heard == (
            SessionView::Understand { line })
            &&& !(1 <= line.len() <= 4096 && line[line.len() - 1] == 10) ==> heard
                == SessionView::Finished(Some("invalid control request size"@))
        }),
{
}

/// Whoever asks for the state is shown it once; whoever follows it is shown it, and
/// again whenever it changes, until they leave.
pub proof fn states_are_shown(line: Seq<u8>)
    ensures
        ({
            let understood = SessionView::Understand { line };
            let status = understood.after(HappeningView::Command(WireCommandView::Status));
            let watch = understood.after(HappeningView::Command(WireCommandView::Watch));
            let following = watch.after(HappeningView::Done);
            &&& status is Show
            &&& status.after(HappeningView::Done) == SessionView::Finished(None)
            &&& watch is Show
            &&& following is Follow
            &&& following.after(HappeningView::Changed) == watch
            &&& following.after(HappeningView::Left) == SessionView::Finished(None)
        }),
{
}

/// Every other request reaches the policy as it was made, and what the policy answers
/// is what the client is told.
pub proof fn requests_reach_the_policy(
    line: Seq<u8>,
    text: Seq<char>,
    mode: Mode,
    refusal: Option<Seq<char>>,
    command: CommandView,
)
    ensures
        ({
            let understood = SessionView::Understand { line };
            let answered = SessionView::Forward { command }.after(HappeningView::Answer(refusal));
            &&& understood.after(
                HappeningView::Command(WireCommandView::Setup { address: text }),
            ) == (SessionView::Forward { command: CommandView::Setup(text) })
            &&& understood.after(HappeningView::Command(WireCommandView::Mode { mode })) == (
            SessionView::Forward { command: CommandView::Mode(mode) })
            &&& understood.after(HappeningView::Command(WireCommandView::Release)) == (
            SessionView::Forward { command: CommandView::Release })
            &&& answered == (SessionView::Answer { refusal })
            &&& answered.after(HappeningView::Done) == SessionView::Finished(None)
        }),
{
}

/// A session that fails ends with what went wrong, and stays ended.
pub proof fn failed_sessions_end(session: SessionView, message: Seq<char>, later: HappeningView)
    ensures
        ({
            let failed = session.after(HappeningView::Failed(message));
            match session {
                SessionView::Finished(_) => session.after(later) == session,
                SessionView::Understand { .. } => failed == SessionView::Finished(
                    Some("invalid control request: "@ + message),
                ),
                _ => failed == SessionView::Finished(Some(message)),
            }
        }),
{
}

/// Up to sixteen clients are served at a time; one more is turned away, and one that
/// leaves makes room for another. A signal stops the daemon, and the end of the policy
/// ends it with its result.
pub proof fn sixteen_clients_are_served(taken: nat, result: Result<(), String>)
    ensures
        supervised(taken, Incident::Accepted) == if taken < 16 {
            ((taken + 1) as nat, SupervisionView::Serve)
        } else {
            (taken, SupervisionView::TurnAway)
        },
        supervised(taken, Incident::ClientGone).1 is Wait,
        supervised((taken + 1) as nat, Incident::ClientGone).0 == taken,
        taken < 16 ==> supervised(supervised(taken, Incident::Accepted).0, Incident::ClientGone).0
            == taken,
        supervised(taken, Incident::Signal) == (taken, SupervisionView::Stop),
        supervised(taken, Incident::PolicyEnded(result)) == (
            taken,
            SupervisionView::Over(
                match result {
                    Ok(_) => None,
                    Err(message) => Some(message@),
                },
            ),
        ),
{
}

/// A snapshot of which only what is stored is known.
pub open spec fn claims_nothing(snapshot: SnapshotView) -> bool {
    let nothing = Cell { percent: None, charging: None };
    &&& snapshot.schema == 1
    &&& !snapshot.connected
    &&& snapshot.in_ear.0 is None && snapshot.in_ear.1 is None
    &&& snapshot.battery.left == nothing
    &&& snapshot.battery.right == nothing
    &&& snapshot.battery.case == nothing
    &&& snapshot.mode is None
    &&& snapshot.paired_devices.len() == 0
}

/// What is shown before the policy has started, and what a client shows without a
/// daemon: the stored name, whether the device is set up, and what is wrong; nothing is
/// claimed of the device.
pub proof fn snapshots_without_a_policy(
    stored: Option<ConfigView>,
    unreadable: Result<Option<ConfigView>, ()>,
    reason: Seq<char>,
)
    ensures
        ({
            let known = stored matches Some(config) && config.managed && config.keys is Some;
            let first = starting(stored);
            &&& claims_nothing(first)
            &&& first.configured == known
            &&& first.name == match stored {
                Some(config) => config.name,
                None => "AirPods"@,
            }
            &&& known ==> first.status == "error"@ && first.error == Some(
                "Initializing Bluetooth connection guard"@,
            )
            &&& !known ==> first.status == "setup_required"@ && first.error is None
        }),
        ({
            let shown = offline(unreadable, reason);
            &&& claims_nothing(shown)
            &&& shown.status == "error"@
            &&& match unreadable {
                Ok(Some(config)) => shown.configured == (config.managed && config.keys is Some)
                    && shown.name == config.name && shown.error == Some(reason),
                Ok(None) => !shown.configured && shown.name == "AirPods"@ && shown.error == Some(
                    reason,
                ),
                Err(_) => !shown.configured && shown.name == "AirPods"@ && shown.error == Some(
                    "Invalid private configuration; daemon unavailable"@,
                ),
            }
        }),
{
}

proof fn first_named(members: Seq<(Seq<char>, JsonView)>, name: Seq<char>, from: int, i: int)
    requires
        0 <= from <= i <= members.len(),
        forall|j: int| from <= j < i ==> (#[trigger] members[j]).0 != name,
    ensures
        json::named(members, name, from) == if i < members.len() && members[i].0 == name {
            members[i].1
        } else {
            json::named(members, name, i)
        },
    decreases i - from,
{
    if from < i {
        assert(members[from].0 != name);
        first_named(members, name, from + 1, i);
    }
}

/// A member is found by its name: the first one that has it. Where there is none, and
/// where the value is no object, it is null.
pub proof fn members_are_found_by_name(value: JsonView, name: Seq<char>, i: int)
    ensures
        !(value is Object) ==> value.member(name) is Null,
        value matches JsonView::Object(members) ==> {
            &&& (0 <= i < members.len() && members[i].0 == name && forall|j: int|
                0 <= j < i ==> (#[trigger] members[j]).0 != name) ==> value.member(name)
                == members[i].1
            &&& (forall|j: int| 0 <= j < members.len() ==> (#[trigger] members[j]).0 != name)
                ==> value.member(name) is Null
        },
{
    if let JsonView::Object(members) = value {
        if 0 <= i < members.len() && members[i].0 == name && forall|j: int|
            0 <= j < i ==> (#[trigger] members[j]).0 != name {
            first_named(members, name, 0, i);
        }
        if forall|j: int| 0 <= j < members.len() ==> (#[trigger] members[j]).0 != name {
            first_named(members, name, 0, members.len() as int);
        }
    }
}

/// A response refuses a request exactly if its member `ok` is false; the reason is its
/// member `error`, where that is a text.
pub proof fn refusals_say_that_it_is_not_ok(response: JsonView)
    ensures
        refusal(response) is Some <==> response.member("ok"@) == JsonView::Bool(false),
        refusal(response) matches Some(reason) ==> reason == match response.member("error"@) {
            JsonView::Text(text) => text,
            _ => "command failed"@,
        },
{
}

/// A line of the daemon is good exactly if it is neither empty nor longer than 65536
/// bytes, is a document, and refuses nothing; otherwise it is said what is wrong.
pub proof fn good_lines_are_short_documents(line: Seq<u8>)
    ensures
        objection(line) is None <==> 1 <= line.len() <= 65536 && (json::document(line) matches Ok(
            value,
        ) && value.member("ok"@) != JsonView::Bool(false)),
        line.len() == 0 ==> objection(line) == Some("daemon control connection closed"@),
        line.len() > 65536 ==> objection(line) == Some("daemon response exceeds protocol limit"@),
        1 <= line.len() <= 65536 ==> match json::document(line) {
            Ok(value) => objection(line) == refusal(value),
            Err(message) => objection(line) == Some("invalid daemon response: "@ + message),
        },
{
}

/// A client whose daemon answers goes its whole way: it finds the daemon, connects,
/// sends its request, reads a line, sees that it is a snapshot, and prints the very line
/// that it read. One that follows then reads on, any other one is done.
pub proof fn errands_go_their_way(command: WireCommandView, line: Seq<u8>)
    requires
        objection(line) is None,
    ensures
        ({
            let done = ProgressView::Done;
            let connect = ErrandView::Locate.after(command, done);
            let send = connect.after(command, done);
            let read = send.after(command, done);
            let validate = read.after(command, ProgressView::Line(line));
            let print = validate.after(command, done);
            let end = print.after(command, done);
            &&& connect is Connect
            &&& send is Send
            &&& read matches ErrandView::Read { endless } && endless == (command is Watch)
            &&& validate == (ErrandView::Validate { line })
            &&& print == (ErrandView::Print { line })
            &&& command is Watch ==> end == read
            &&& !(command is Watch) ==> end == ErrandView::Finished(None)
        }),
{
}

/// Whatever goes wrong on the way is what the client fails with, and it stays failed.
pub proof fn errands_fail_for_a_reason(
    command: WireCommandView,
    line: Seq<u8>,
    endless: bool,
    message: Seq<char>,
    later: ProgressView,
)
    ensures
        ({
            let failed = ProgressView::Failed(message);
            let finished = ErrandView::Finished(Some(message));
            let read = ErrandView::Read { endless };
            &&& read.after(command, ProgressView::TimedOut(message)) == ErrandView::Finished(
                Some("daemon command timed out: "@ + message),
            )
            &&& objection(line) matches Some(reason) ==> read.after(
                command,
                ProgressView::Line(line),
            ) == ErrandView::Finished(Some(reason))
            &&& ErrandView::Validate { line }.after(command, failed) == ErrandView::Finished(
                Some("invalid snapshot schema: "@ + message),
            )
            &&& ErrandView::Send.after(command, failed) == finished
            &&& read.after(command, failed) == finished
            &&& ErrandView::Print { line }.after(command, failed) == finished
            &&& ErrandView::Lock.after(command, failed) == finished
            &&& ErrandView::Recover.after(command, failed) == finished
            &&& ErrandView::ShowReleased.after(command, failed) == finished
            &&& finished.after(command, later) == finished
        }),
{
}

/// Without a daemon a client that only looks shows that there is none and then fails
/// with the reason; one that releases does so itself, under the lock, and shows that
/// nothing is set up; any other one fails.
pub proof fn clients_manage_without_a_daemon(command: WireCommandView, message: Seq<char>)
    ensures
        ({
            let done = ProgressView::Done;
            let looks = command is Status || command is Watch;
            let whole = "airpodsd daemon is unavailable: "@ + message;
            let lost = ErrandView::Locate.after(command, ProgressView::Failed(message));
            let alone = ErrandView::Connect.after(command, ProgressView::Failed(message));
            &&& looks ==> {
                &&& lost == (ErrandView::ShowOffline {
                    reason: "airpodsd runtime directory is unavailable"@,
                    failure: message,
                })
                &&& lost.after(command, done) == ErrandView::Finished(Some(message))
                &&& alone == (ErrandView::ShowOffline {
                    reason: "airpodsd daemon is unavailable"@,
                    failure: whole,
                })
                &&& alone.after(command, done) == ErrandView::Finished(Some(whole))
            }
            &&& command is Release ==> {
                &&& lost == ErrandView::Finished(Some(message))
                &&& alone is Lock
                &&& alone.after(command, done) is Recover
                &&& alone.after(command, done).after(command, done) is ShowReleased
                &&& alone.after(command, done).after(command, done).after(command, done)
                    == ErrandView::Finished(None)
            }
            &&& command is Setup || command is Mode ==> {
                &&& lost == ErrandView::Finished(Some(message))
                &&& alone == ErrandView::Finished(Some(whole))
            }
        }),
{
}

/// Modes are called by their names.
pub proof fn modes_are_called_by_their_names(word: Seq<char>)
    ensures
        mode_named(word) == Some(Mode::Off) <==> word == "off"@,
        mode_named(word) == Some(Mode::Anc) <==> word == "anc"@,
        mode_named(word) == Some(Mode::Transparency) <==> word == "transparency"@,
        mode_named(word) == Some(Mode::Adaptive) <==> word == "adaptive"@,
{
    reveal_strlit("off");
    reveal_strlit("anc");
    reveal_strlit("transparency");
    reveal_strlit("adaptive");
    assert("off"@[0] != "anc"@[0]);
    assert("off"@.len() == 3 && "anc"@.len() == 3 && "transparency"@.len() == 12
        && "adaptive"@.len() == 8);
}

proof fn one_word(words: Seq<Seq<char>>, word: Seq<char>)
    ensures
        words == seq![word] <==> words.len() == 1 && words[0] == word,
{
    if words.len() == 1 && words[0] == word {
        assert(words =~= seq![word]);
    }
}

/// What a call is for is what its first word says, and nothing else is called for: the
/// daemon, the guard, the state, the states from now on, a setup with an address, a mode
/// with its name, a release, or help.
pub proof fn calls_are_for_what_they_say(words: Seq<Seq<char>>)
    ensures
        ({
            let called = invocation(words);
            &&& called == Ok::<InvocationView, Seq<char>>(InvocationView::Daemon) <==> words
                == seq!["daemon"@]
            &&& called == Ok::<InvocationView, Seq<char>>(InvocationView::Guard) <==> words
                == seq!["guard"@]
            &&& called == Ok::<InvocationView, Seq<char>>(
                InvocationView::Client(WireCommandView::Status),
            ) <==> words == seq!["status"@]
            &&& called == Ok::<InvocationView, Seq<char>>(
                InvocationView::Client(WireCommandView::Watch),
            ) <==> words == seq!["watch"@]
            &&& called == Ok::<InvocationView, Seq<char>>(
                InvocationView::Client(WireCommandView::Release),
            ) <==> words == seq!["release"@]
            &&& called == Ok::<InvocationView, Seq<char>>(InvocationView::Help) <==> words
                == seq!["--help"@] || words == seq!["-h"@]
        }),
        words.len() == 2 && words[0] == "setup"@ ==> match address::parsed(words[1]) {
            Ok(address) => invocation(words) == Ok::<InvocationView, Seq<char>>(
                InvocationView::Client(
                    WireCommandView::Setup { address: address::written(address) },
                ),
            ),
            Err(message) => invocation(words) == Err::<InvocationView, Seq<char>>(
                "invalid Bluetooth address: "@ + message,
            ),
        },
        words.len() == 2 && words[0] == "mode"@ ==> match mode_named(words[1]) {
            Some(mode) => invocation(words) == Ok::<InvocationView, Seq<char>>(
                InvocationView::Client(WireCommandView::Mode { mode }),
            ),
            None => invocation(words) == Err::<InvocationView, Seq<char>>(
                "mode must be off, anc, transparency, or adaptive"@,
            ),
        },
        (words.len() == 0 || words.len() > 2 || (words.len() == 2 && words[0] != "setup"@
            && words[0] != "mode"@)) ==> invocation(words) == Err::<InvocationView, Seq<char>>(
            "usage: airpodsd daemon|watch|status|setup <MAC>|mode <off|anc|transparency|adaptive>|release"@,
        ),
{
    reveal_strlit("daemon");
    reveal_strlit("guard");
    reveal_strlit("status");
    reveal_strlit("watch");
    reveal_strlit("release");
    reveal_strlit("--help");
    reveal_strlit("-h");
    reveal_strlit("setup");
    reveal_strlit("mode");
    assert("daemon"@[0] != "status"@[0] && "daemon"@[0] != "--help"@[0] && "status"@[0]
        != "--help"@[0]);
    assert("guard"@[0] != "watch"@[0]);
    assert("daemon"@.len() == 6 && "guard"@.len() == 5 && "status"@.len() == 6 && "watch"@.len()
        == 5 && "release"@.len() == 7 && "--help"@.len() == 6 && "-h"@.len() == 2 && "setup"@.len()
        == 5 && "mode"@.len() == 4);
    one_word(words, "daemon"@);
    one_word(words, "guard"@);
    one_word(words, "status"@);
    one_word(words, "watch"@);
    one_word(words, "release"@);
    one_word(words, "--help"@);
    one_word(words, "-h"@);
}

} // verus!
