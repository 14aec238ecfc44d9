use airpodsd::media::{wear, Ask, Controller, Step, Told, Track, Wear};
use airpodsd::model::{removed, wearing, Mode, Snapshot};

fn worn(in_ear: [Option<bool>; 2]) -> Snapshot {
    let mut snapshot = Snapshot::default();
    snapshot.configured = true;
    snapshot.connected = true;
    snapshot.in_ear = in_ear;
    snapshot
}

fn track(id: &str) -> Track {
    Track { id: Some(id.to_string()), url: None }
}

fn text(text: &str) -> Told {
    Told::Text(text.to_string())
}

/// A controller that was told that both buds are in and then one came out.
fn one_out() -> Controller {
    let mut controller = Controller::new();
    assert!(matches!(controller.changed(Wear::Both, Wear::Both).ask, Ask::Wait));
    assert!(matches!(controller.changed(Wear::One, Wear::One).ask, Ask::Names));
    controller
}

fn names(names: &[&str]) -> Told {
    Told::Names(names.iter().map(|name| name.to_string()).collect())
}

/// Pauses the one player that plays.
fn paused(controller: &mut Controller, owner: &str, id: &str) -> Step {
    assert!(matches!(
        controller.told(Wear::One, text(owner)).ask,
        Ask::Status { owner: asked } if asked == owner
    ));
    assert!(matches!(controller.told(Wear::One, text("Playing")).ask, Ask::CanPause { .. }));
    assert!(matches!(controller.told(Wear::One, Told::Flag(true)).ask, Ask::Metadata { .. }));
    assert!(matches!(
        controller.told(Wear::One, Told::Metadata(track(id))).ask,
        Ask::Pause { owner: asked } if asked == owner
    ));
    assert!(matches!(controller.told(Wear::One, Told::Done).ask, Ask::Status { .. }));
    controller.told(Wear::One, text("Paused"))
}

#[test]
fn wear_needs_both_ears_to_be_known() {
    assert_eq!(wear(&worn([Some(true), Some(true)])), Wear::Both);
    assert_eq!(wear(&worn([Some(true), Some(false)])), Wear::One);
    assert_eq!(wear(&worn([Some(false), Some(true)])), Wear::One);
    assert_eq!(wear(&worn([Some(false), Some(false)])), Wear::Unavailable);
    assert_eq!(wear(&worn([Some(true), None])), Wear::Unavailable);
    let mut snapshot = worn([Some(true), Some(true)]);
    snapshot.connected = false;
    assert_eq!(wear(&snapshot), Wear::Unavailable);
    let mut snapshot = worn([Some(true), Some(true)]);
    snapshot.configured = false;
    assert_eq!(wear(&snapshot), Wear::Unavailable);
}

#[test]
fn one_known_ear_is_enough_to_be_worn() {
    assert!(wearing([Some(true), None]));
    assert!(wearing([Some(false), Some(true)]));
    assert!(!wearing([None, None]));
    assert!(!wearing([Some(false), None]));
    assert!(removed([Some(false), Some(false)]));
    assert!(!removed([Some(false), None]));
}

#[test]
fn modes_are_numbered() {
    for (mode, value) in
        [(Mode::Off, 1), (Mode::Anc, 2), (Mode::Transparency, 3), (Mode::Adaptive, 4)]
    {
        assert_eq!(mode.value(), value);
        assert_eq!(Mode::from_value(value), Some(mode));
    }
    assert_eq!(Mode::from_value(0), None);
    assert_eq!(Mode::from_value(5), None);
}

#[test]
fn nothing_is_set_up_at_first() {
    let snapshot = Snapshot::default();
    assert_eq!(snapshot.schema, 1);
    assert_eq!(snapshot.status, "setup_required");
    assert_eq!(snapshot.name, "AirPods");
    assert!(!snapshot.configured);
    assert_eq!(snapshot.clone().paired_devices.len(), 0);
}

#[test]
fn what_was_paused_is_resumed() {
    let mut controller = one_out();
    let step = controller.told(
        Wear::One,
        names(&["org.freedesktop.DBus", "org.mpris.MediaPlayer2.a", "org.mpris.MediaPlayer2.b"]),
    );
    assert!(matches!(step.ask, Ask::Owner { name } if name == "org.mpris.MediaPlayer2.a"));
    let step = paused(&mut controller, ":1.1", "song");
    assert!(step.warning.is_none());
    assert!(matches!(step.ask, Ask::Owner { name } if name == "org.mpris.MediaPlayer2.b"));
    controller.told(Wear::One, text(":1.2"));
    let step = controller.told(Wear::One, text("Stopped"));
    assert!(matches!(step.ask, Ask::Wait));
    assert_eq!(controller.paused.len(), 1);

    let step = controller.changed(Wear::Both, Wear::Both);
    assert!(matches!(step.ask, Ask::Status { owner } if owner == ":1.1"));
    let step = controller.told(Wear::Both, text("Paused"));
    assert!(matches!(step.ask, Ask::Metadata { .. }));
    let step = controller.told(Wear::Both, Told::Metadata(track("song")));
    assert!(matches!(step.ask, Ask::Play { owner } if owner == ":1.1"));
    let step = controller.told(Wear::Both, Told::Done);
    assert!(step.warning.is_none());
    assert!(matches!(step.ask, Ask::Wait));
    assert_eq!(controller.paused.len(), 0);
}

#[test]
fn another_track_is_not_resumed() {
    let mut controller = one_out();
    controller.told(Wear::One, names(&["org.mpris.MediaPlayer2.a"]));
    paused(&mut controller, ":1.1", "song");
    controller.changed(Wear::Both, Wear::Both);
    controller.told(Wear::Both, text("Paused"));
    let step = controller.told(Wear::Both, Told::Metadata(track("other")));
    assert!(matches!(step.ask, Ask::Wait));
    assert_eq!(controller.paused.len(), 0);
}

#[test]
fn losing_the_device_revokes_every_record() {
    let mut controller = one_out();
    controller.told(Wear::One, names(&["org.mpris.MediaPlayer2.a"]));
    paused(&mut controller, ":1.1", "song");
    assert!(matches!(
        controller.changed(Wear::Unavailable, Wear::Unavailable).ask,
        Ask::Wait
    ));
    assert!(matches!(controller.changed(Wear::Both, Wear::Both).ask, Ask::Wait));
}

#[test]
fn a_pause_that_is_not_done_or_not_confirmed_is_not_resumed() {
    let unconfirmed = [
        vec![Told::Failed],
        vec![Told::Done, text("Playing")],
        vec![Told::Done, Told::Failed],
    ];
    for answers in unconfirmed {
        let mut controller = one_out();
        controller.told(Wear::One, names(&["org.mpris.MediaPlayer2.a"]));
        controller.told(Wear::One, text(":1.1"));
        controller.told(Wear::One, text("Playing"));
        controller.told(Wear::One, Told::Flag(true));
        let step = controller.told(Wear::One, Told::Metadata(track("song")));
        assert!(matches!(step.ask, Ask::Pause { owner } if owner == ":1.1"));
        for answer in answers {
            controller.told(Wear::One, answer);
        }
        assert_eq!(controller.paused.len(), 0);
        assert!(matches!(controller.changed(Wear::Both, Wear::Both).ask, Ask::Wait));
    }
}

#[test]
fn no_more_is_resumed_than_was_paused() {
    let mut controller = one_out();
    controller.told(Wear::One, names(&["org.mpris.MediaPlayer2.a"]));
    paused(&mut controller, ":1.1", "song");
    controller.changed(Wear::Both, Wear::Both);
    controller.told(Wear::Both, text("Paused"));
    let step = controller.told(Wear::Both, Told::Metadata(track("song")));
    assert!(matches!(step.ask, Ask::Play { owner } if owner == ":1.1"));
    controller.told(Wear::Both, Told::Done);
    assert!(matches!(controller.changed(Wear::One, Wear::One).ask, Ask::Names));
    assert!(matches!(controller.told(Wear::One, names(&[])).ask, Ask::Wait));
    assert!(matches!(controller.changed(Wear::Both, Wear::Both).ask, Ask::Wait));
}

#[test]
fn manual_playback_revokes_a_record() {
    let mut controller = one_out();
    controller.told(Wear::One, names(&["org.mpris.MediaPlayer2.a", "org.mpris.MediaPlayer2.b"]));
    paused(&mut controller, ":1.1", "song");
    paused(&mut controller, ":1.2", "tune");
    assert_eq!(controller.paused.len(), 2);
    let step = controller.changed(Wear::One, Wear::One);
    assert!(matches!(step.ask, Ask::Status { owner } if owner == ":1.1"));
    let step = controller.told(Wear::One, text("Playing"));
    assert!(matches!(step.ask, Ask::Status { owner } if owner == ":1.2"));
    controller.told(Wear::One, text("Paused"));
    let step = controller.told(Wear::One, Told::Metadata(track("tune")));
    assert!(matches!(step.ask, Ask::Wait));
    assert_eq!(controller.paused.len(), 1);
    assert_eq!(controller.paused[0].owner, ":1.2");
}

#[test]
fn players_that_cannot_be_told_apart_are_not_resumed() {
    let mut controller = one_out();
    controller.told(Wear::One, names(&["org.mpris.MediaPlayer2.a"]));
    controller.told(Wear::One, text(":1.1"));
    controller.told(Wear::One, text("Playing"));
    controller.told(Wear::One, Told::Flag(true));
    controller.told(Wear::One, Told::Metadata(Track { id: None, url: None }));
    controller.told(Wear::One, Told::Done);
    let step = controller.told(Wear::One, text("Paused"));
    assert_eq!(
        step.warning,
        Some("A media player could not confirm pause/resume ownership".to_string())
    );
    assert_eq!(controller.paused.len(), 0);
}

#[test]
fn players_are_left_alone_once_the_bud_is_back() {
    let mut controller = one_out();
    controller.told(Wear::One, names(&["org.mpris.MediaPlayer2.a"]));
    controller.told(Wear::One, text(":1.1"));
    controller.told(Wear::One, text("Playing"));
    controller.told(Wear::One, Told::Flag(true));
    let step = controller.told(Wear::Both, Told::Metadata(track("song")));
    assert!(matches!(step.ask, Ask::Wait));
    assert_eq!(controller.paused.len(), 0);
}

#[test]
fn failures_of_the_bus_are_warned_of() {
    let mut controller = one_out();
    let step = controller.told(Wear::One, Told::Failed);
    assert_eq!(
        step.warning,
        Some("Session media controls could not pause playback".to_string())
    );
    assert!(matches!(step.ask, Ask::Wait));

    let mut controller = one_out();
    controller.told(Wear::One, names(&["org.mpris.MediaPlayer2.a"]));
    paused(&mut controller, ":1.1", "song");
    controller.changed(Wear::Both, Wear::Both);
    controller.told(Wear::Both, text("Paused"));
    controller.told(Wear::Both, Told::Metadata(track("song")));
    let step = controller.told(Wear::Both, Told::Failed);
    assert_eq!(step.warning, Some("A media player could not resume playback".to_string()));
}
