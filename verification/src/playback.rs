//! What media players are asked for, step by step.
use crate::media::{
    players, worn_as, AskView, ControllerView, MediaView, PausedPlayerView, StepOf, ToldView,
    TrackView, Wear,
};
use crate::model::SnapshotView;
use vstd::prelude::*;

verus! {

/// Both buds are in, or exactly one, only if the device is set up and connected and
/// both of its ears are known; which of the two is in does not matter.
pub proof fn wear_counts_the_buds(snapshot: SnapshotView)
    ensures
        ({
            let known = snapshot.configured && snapshot.connected && snapshot.in_ear.0 is Some
                && snapshot.in_ear.1 is Some;
            let count = (if snapshot.in_ear.0 == Some(true) {
                1int
            } else {
                0
            }) + (if snapshot.in_ear.1 == Some(true) {
                1int
            } else {
                0
            });
            &&& worn_as(snapshot) == Wear::Both <==> known && count == 2
            &&& worn_as(snapshot) == Wear::One <==> known && count == 1
            &&& worn_as(snapshot) == worn_as(
                SnapshotView { in_ear: (snapshot.in_ear.1, snapshot.in_ear.0), ..snapshot },
            )
        }),
{
    let (a, b) = snapshot.in_ear;
    match (a, b) {
        (Some(a), Some(b)) => {
            assert(snapshot.in_ear == (Some(a), Some(b)));
        },
        _ => {},
    }
}

/// Players are the names that begin with the name of the interface; they keep their
/// order.
pub proof fn players_are_named_for_their_interface(names: Seq<Seq<char>>, name: Seq<char>)
    ensures
        ({
            let prefix = "org.mpris.MediaPlayer2."@;
            let is_player = name.len() >= prefix.len() && name.take(prefix.len() as int) == prefix;
            players(names.push(name)) == if is_player {
                players(names).push(name)
            } else {
                players(names)
            }
        }),
        players(Seq::empty()).len() == 0,
{
    let prefix = "org.mpris.MediaPlayer2."@;
    assert(names.push(name).drop_last() =~= names);
    if name.len() >= prefix.len() {
        assert(name.take(prefix.len() as int) =~= name.subrange(0, prefix.len() as int));
    }
}

/// The next player is taken up, while exactly one bud is in; otherwise what was paused
/// so far is held.
pub open spec fn takes_up(
    before: ControllerView,
    now: Wear,
    names: Seq<Seq<char>>,
    done: Seq<PausedPlayerView>,
    warning: Option<Seq<char>>,
    turn: StepOf,
) -> bool {
    let (left, step) = turn;
    &&& step.warning == warning
    &&& left.previous == before.previous
    &&& if names.len() > 0 && now == Wear::One {
        &&& step.ask == (AskView::Owner { name: names[0] })
        &&& left.media matches MediaView::Owner { names: rest, done: d } && d == done && rest
            == names.skip(1)
        &&& left.paused == before.paused
    } else {
        &&& step.ask is Wait
        &&& left.media is Idle
        &&& left.paused == done
    }
}

/// When one of two buds comes out the players are listed and taken up one after the
/// other. Where they cannot be listed that is warned of, and what was paused stays held.
pub proof fn taking_one_bud_out_pauses(
    controller: ControllerView,
    current: Wear,
    now: Wear,
    names: Seq<Seq<char>>,
    told: ToldView,
)
    ensures
        (controller.previous == Wear::Both) ==> {
            let (left, step) = controller.changed(Wear::One, now);
            &&& step.ask is Names && step.warning is None
            &&& left.media is Listing
            &&& left.paused == controller.paused
            &&& left.previous == Wear::One
            &&& takes_up(
                left,
                now,
                players(names),
                Seq::empty(),
                None,
                left.told(now, ToldView::Names(names)),
            )
            &&& !(told is Names) ==> {
                let (failed, warned) = left.told(now, told);
                &&& failed == ControllerView { media: MediaView::Idle, ..left }
                &&& warned.ask is Wait
                &&& warned.warning == Some("Session media controls could not pause playback"@)
            }
        },
        controller.changed(current, now).0.previous == current,
{
}

/// A player that plays, can be paused and tells its track is paused while one bud is
/// in, and once it says that it is paused it is recorded, if its track can be
/// recognized. Then the next one is taken up.
pub proof fn a_playing_player_is_paused_and_recorded(
    controller: ControllerView,
    names: Seq<Seq<char>>,
    done: Seq<PausedPlayerView>,
    owner: Seq<char>,
    track: TrackView,
    now: Wear,
)
    requires
        controller.media == (MediaView::Owner { names, done }),
    ensures
        ({
            let (one, status) = controller.told(Wear::One, ToldView::Text(owner));
            let (two, able) = one.told(Wear::One, ToldView::Text("Playing"@));
            let (three, identity) = two.told(Wear::One, ToldView::Flag(true));
            let (four, pause) = three.told(Wear::One, ToldView::Metadata(track));
            let (five, again) = four.told(Wear::One, ToldView::Done);
            let last = five.told(now, ToldView::Text("Paused"@));
            &&& status.ask == (AskView::Status { owner })
            &&& able.ask == (AskView::CanPause { owner })
            &&& identity.ask == (AskView::Metadata { owner })
            &&& pause.ask == (AskView::Pause { owner })
            &&& again.ask == (AskView::Status { owner })
            &&& status.warning is None && able.warning is None && identity.warning is None
            &&& pause.warning is None && again.warning is None
            &&& five.paused == controller.paused
            &&& track.id is Some || track.url is Some ==> takes_up(
                controller,
                now,
                names,
                done.push(PausedPlayerView { owner, track }),
                None,
                last,
            )
            &&& track.id is None && track.url is None ==> takes_up(
                controller,
                now,
                names,
                done,
                Some("A media player could not confirm pause/resume ownership"@),
                last,
            )
        }),
{
}

/// A player that does not play or cannot be paused is passed over without a warning,
/// and so is one that would be paused when it is too late; one that fails or does not
/// confirm is passed over with a warning.
pub proof fn other_players_are_passed_over(
    controller: ControllerView,
    now: Wear,
    told: ToldView,
    names: Seq<Seq<char>>,
    done: Seq<PausedPlayerView>,
    owner: Seq<char>,
    track: TrackView,
)
    ensures
        ({
            let turn = controller.told(now, told);
            let warning = Some("A media player could not confirm pause/resume ownership"@);
            &&& controller.media == (MediaView::Owner { names, done }) && !(told is Text)
                ==> takes_up(controller, now, names, done, warning, turn)
            &&& controller.media == (MediaView::Playing { names, done, owner }) ==> {
                &&& told matches ToldView::Text(status) ==> (status != "Playing"@ ==> takes_up(
                    controller,
                    now,
                    names,
                    done,
                    None,
                    turn,
                ))
                &&& !(told is Text) ==> takes_up(controller, now, names, done, warning, turn)
            }
            &&& controller.media == (MediaView::Pausable { names, done, owner }) ==> {
                &&& told == ToldView::Flag(false) ==> takes_up(
                    controller,
                    now,
                    names,
                    done,
                    None,
                    turn,
                )
                &&& !(told is Flag) ==> takes_up(controller, now, names, done, warning, turn)
            }
            &&& controller.media == (MediaView::Identity { names, done, owner }) ==> {
                &&& told is Metadata && now != Wear::One ==> takes_up(
                    controller,
                    now,
                    names,
                    done,
                    None,
                    turn,
                )
                &&& !(told is Metadata) ==> takes_up(controller, now, names, done, warning, turn)
            }
            &&& controller.media == (MediaView::Pausing { names, done, owner, track }) && !(told
                is Done) ==> takes_up(controller, now, names, done, warning, turn)
            &&& controller.media == (MediaView::Confirming { names, done, owner, track }) && told
                != ToldView::Text("Paused"@) ==> takes_up(
                controller,
                now,
                names,
                done,
                warning,
                turn,
            )
        }),
{
}

/// The next record is looked at, while both buds are in; otherwise all that is left is
/// dropped.
pub open spec fn looks_at(
    now: Wear,
    rest: Seq<PausedPlayerView>,
    warning: Option<Seq<char>>,
    turn: StepOf,
) -> bool {
    let (left, step) = turn;
    &&& step.warning == warning
    &&& left.paused.len() == 0
    &&& if rest.len() > 0 && now == Wear::Both {
        &&& step.ask == (AskView::Status { owner: rest[0].owner })
        &&& left.media matches MediaView::Checking { rest: r, record } && record == rest[0] && r
            == rest.skip(1)
    } else {
        step.ask is Wait && left.media is Idle
    }
}

/// When both buds are in, every record is looked at in the order in which they were
/// made: a player that is still paused in the track that it was paused in is asked to
/// play, any other one is not. A record is looked at once.
pub proof fn putting_both_buds_in_resumes(
    controller: ControllerView,
    now: Wear,
    told: ToldView,
    rest: Seq<PausedPlayerView>,
    record: PausedPlayerView,
)
    ensures
        looks_at(now, controller.paused, None, controller.changed(Wear::Both, now)),
        ({
            let (left, step) = controller.told(now, told);
            &&& controller.paused.len() == 0 && controller.media == (MediaView::Checking {
                rest,
                record,
            }) ==> {
                if told == ToldView::Text("Paused"@) {
                    &&& step.ask == (AskView::Metadata { owner: record.owner })
                    &&& step.warning is None
                    &&& left == ControllerView {
                        media: MediaView::Comparing { rest, record },
                        ..controller
                    }
                } else {
                    looks_at(now, rest, None, (left, step))
                }
            }
            &&& controller.paused.len() == 0 && controller.media == (MediaView::Comparing {
                rest,
                record,
            }) ==> {
                if told == ToldView::Metadata(record.track) && now == Wear::Both {
                    &&& step.ask == (AskView::Play { owner: record.owner })
                    &&& step.warning is None
                    &&& left == ControllerView { media: MediaView::Resuming { rest }, ..controller }
                } else {
                    looks_at(now, rest, None, (left, step))
                }
            }
            &&& controller.paused.len() == 0 && controller.media == (MediaView::Resuming { rest })
                ==> looks_at(
                now,
                rest,
                if told is Done {
                    None
                } else {
                    Some("A media player could not resume playback"@)
                },
                (left, step),
            )
        }),
{
}

/// The next record is looked at again; after the last one those that were kept are held.
pub open spec fn looks_again(
    rest: Seq<PausedPlayerView>,
    kept: Seq<PausedPlayerView>,
    turn: StepOf,
) -> bool {
    let (left, step) = turn;
    &&& step.warning is None
    &&& if rest.len() > 0 {
        &&& step.ask == (AskView::Status { owner: rest[0].owner })
        &&& left.media matches MediaView::Rechecking { rest: r, kept: k, record } && record
            == rest[0] && r == rest.skip(1) && k == kept
    } else {
        step.ask is Wait && left.media is Idle && left.paused == kept
    }
}

/// While one bud stays out every record is looked at again, and exactly those are kept
/// whose players are still paused in the same track, in their order.
pub proof fn records_are_kept_while_nothing_changes(
    controller: ControllerView,
    now: Wear,
    told: ToldView,
    rest: Seq<PausedPlayerView>,
    kept: Seq<PausedPlayerView>,
    record: PausedPlayerView,
)
    ensures
        controller.previous != Wear::Both ==> looks_again(
            controller.paused,
            Seq::empty(),
            controller.changed(Wear::One, now),
        ),
        controller.media == (MediaView::Rechecking { rest, kept, record }) ==> if told
            == ToldView::Text("Paused"@) {
            let (left, step) = controller.told(now, told);
            &&& step.ask == (AskView::Metadata { owner: record.owner })
            &&& step.warning is None
            &&& left == ControllerView {
                media: MediaView::Recomparing { rest, kept, record },
                ..controller
            }
        } else {
            looks_again(rest, kept, controller.told(now, told))
        },
        controller.media == (MediaView::Recomparing { rest, kept, record }) ==> looks_again(
            rest,
            if told == ToldView::Metadata(record.track) {
                kept.push(record)
            } else {
                kept
            },
            controller.told(now, told),
        ),
{
}

/// A device that is lost, released, out of both ears or not known to be in them takes
/// every record with it, and nothing is asked for.
pub proof fn losing_the_device_asks_for_nothing(controller: ControllerView, now: Wear)
    ensures
        ({
            let (left, step) = controller.changed(Wear::Unavailable, now);
            &&& left.paused.len() == 0
            &&& left.media is Idle
            &&& left.previous == Wear::Unavailable
            &&& step.ask is Wait
            &&& step.warning is None
        }),
        controller.media is Idle ==> controller.told(now, ToldView::Done).0 == controller,
{
}

} // verus!
