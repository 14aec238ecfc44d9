use airpodsd::client::{Errand, Progress};
use airpodsd::control::{
    answer, authorize, check_request, execute, frame, help, offline_snapshot, response, serve,
    starting_snapshot, Invocation, Service, Slots, WireCommand,
};
use airpodsd::daemon::Command;
use airpodsd::json::Json;
use airpodsd::model::{Battery, Mode};
use airpodsd::recovery::{offline_guard, Recovery};
use airpodsd::session::{supervise, Happening, Incident, Session, Supervision};
use airpodsd::storage::{
    check_size, config_path, load, private_dir, private_open, runtime_dir, save, Config, Found,
    Keys, Replacing,
};

const DEVICE: &str = "AA:BB:CC:DD:EE:FF";

fn config(managed: bool, keys: Option<Keys>) -> Config {
    Config {
        schema: 1,
        adapter: "00:11:22:33:44:55".to_string(),
        address: DEVICE.to_string(),
        name: "Buds".to_string(),
        original_blocked: true,
        managed,
        keys,
    }
}

fn keys() -> Option<Keys> {
    Some(Keys { irk: [1; 16], enc: [2; 16] })
}

fn words(words: &[&str]) -> Vec<String> {
    words.iter().map(|word| word.to_string()).collect()
}

#[test]
fn only_the_same_user_is_served() {
    assert_eq!(authorize(1000, 1000), Ok(()));
    assert_eq!(authorize(0, 1000), Err("control client has different ownership".to_string()));
}

#[test]
fn requests_are_one_short_line() {
    let refused = Err("invalid control request size".to_string());
    assert_eq!(check_request(b""), refused);
    assert_eq!(check_request(b"{}"), refused);
    assert_eq!(check_request(b"{}\n"), Ok(()));
    assert_eq!(check_request(&frame(vec![b' '; 4095])), Ok(()));
    assert_eq!(check_request(&frame(vec![b' '; 4096])), refused);
    assert_eq!(frame(b"{}".to_vec()), b"{}\n".to_vec());
}

#[test]
fn requests_are_served_or_forwarded() {
    assert!(matches!(serve(WireCommand::Status), Service::Show));
    assert!(matches!(serve(WireCommand::Watch), Service::Follow));
    assert!(matches!(
        serve(WireCommand::Setup { address: DEVICE.to_string() }),
        Service::Forward(Command::Setup(address)) if address == DEVICE
    ));
    assert!(matches!(
        serve(WireCommand::Mode { mode: Mode::Adaptive }),
        Service::Forward(Command::Mode(Mode::Adaptive))
    ));
    assert!(matches!(serve(WireCommand::Release), Service::Forward(Command::Release)));
}

#[test]
fn sixteen_clients_are_served_at_a_time() {
    let mut slots = Slots::new();
    for _ in 0..16 {
        assert!(slots.take());
    }
    assert!(!slots.take());
    slots.leave();
    assert!(slots.take());
    assert!(!slots.take());
    let mut empty = Slots::new();
    empty.leave();
    assert!(empty.take());
}

#[test]
fn the_first_snapshot_claims_no_guard_yet() {
    let snapshot = starting_snapshot(Some(&config(true, keys())));
    assert!(snapshot.configured);
    assert_eq!(snapshot.name, "Buds");
    assert_eq!(snapshot.status, "error");
    assert_eq!(snapshot.error, Some("Initializing Bluetooth connection guard".to_string()));
    let snapshot = starting_snapshot(Some(&config(true, None)));
    assert!(!snapshot.configured);
    assert_eq!(snapshot.name, "Buds");
    assert_eq!(snapshot.status, "setup_required");
    let snapshot = starting_snapshot(None);
    assert_eq!(snapshot.name, "AirPods");
    assert_eq!(snapshot.error, None);
}

#[test]
fn offline_snapshots_claim_no_connection() {
    let snapshot = offline_snapshot(Ok(Some(config(true, keys()))), "no daemon");
    assert_eq!(snapshot.schema, 1);
    assert!(snapshot.configured);
    assert_eq!(snapshot.name, "Buds");
    assert_eq!(snapshot.status, "error");
    assert!(!snapshot.connected);
    assert_eq!(snapshot.error, Some("no daemon".to_string()));
    assert_eq!(snapshot.in_ear, [None, None]);
    assert_eq!(snapshot.battery, Battery::default());
    let snapshot = offline_snapshot(Ok(None), "no daemon");
    assert_eq!(snapshot.name, "AirPods");
    assert_eq!(snapshot.status, "error");
    let snapshot = offline_snapshot(Err(()), "no daemon");
    assert_eq!(
        snapshot.error,
        Some("Invalid private configuration; daemon unavailable".to_string())
    );
}

fn failed(message: &str) -> Progress {
    Progress::Failed(message.to_string())
}

#[test]
fn clients_show_an_error_before_they_fail() {
    for command in [WireCommand::Status, WireCommand::Watch] {
        let errand = Errand::Locate.after(&command, failed("unset"));
        assert!(matches!(&errand, Errand::ShowOffline { reason, .. }
            if reason == "airpodsd runtime directory is unavailable"));
        assert!(matches!(errand.after(&command, Progress::Done),
            Errand::Finished(Err(message)) if message == "unset"));
        let errand = Errand::Locate.after(&command, Progress::Done);
        let errand = errand.after(&command, failed("refused"));
        assert!(matches!(&errand, Errand::ShowOffline { reason, .. }
            if reason == "airpodsd daemon is unavailable"));
        assert!(matches!(errand.after(&command, Progress::Done),
            Errand::Finished(Err(message))
            if message == "airpodsd daemon is unavailable: refused"));
    }
    let mode = WireCommand::Mode { mode: Mode::Off };
    assert!(matches!(Errand::Connect.after(&mode, failed("refused")),
        Errand::Finished(Err(message)) if message == "airpodsd daemon is unavailable: refused"));
    assert!(matches!(Errand::Locate.after(&WireCommand::Release, failed("unset")),
        Errand::Finished(Err(message)) if message == "unset"));
}

#[test]
fn clients_release_the_device_without_a_daemon() {
    let command = WireCommand::Release;
    let errand = Errand::Connect.after(&command, failed("refused"));
    assert!(matches!(errand, Errand::Lock));
    let errand = errand.after(&command, Progress::Done);
    assert!(matches!(errand, Errand::Recover));
    let errand = errand.after(&command, Progress::Done);
    assert!(matches!(errand, Errand::ShowReleased));
    assert!(matches!(errand.after(&command, Progress::Done), Errand::Finished(Ok(()))));
    assert!(matches!(Errand::Lock.after(&command, failed("held")),
        Errand::Finished(Err(message)) if message == "held"));
}

#[test]
fn clients_print_what_they_have_seen_to_be_good() {
    let line = b"{\"schema\": 1}\n".to_vec();
    let read = |command: &WireCommand| {
        let errand = Errand::Connect.after(command, Progress::Done);
        assert!(matches!(errand, Errand::Send));
        let errand = errand.after(command, Progress::Done);
        let errand = errand.after(command, Progress::Line(line.clone()));
        assert!(matches!(&errand, Errand::Validate { line: checked } if *checked == line));
        let errand = errand.after(command, Progress::Done);
        assert!(matches!(&errand, Errand::Print { line: printed } if *printed == line));
        errand.after(command, Progress::Done)
    };
    assert!(matches!(read(&WireCommand::Status), Errand::Finished(Ok(()))));
    assert!(matches!(read(&WireCommand::Watch), Errand::Read { endless: true }));
    let refused = |errand: Errand, progress: Progress| {
        match errand.after(&WireCommand::Status, progress) {
            Errand::Finished(Err(message)) => message,
            _ => panic!("not refused"),
        }
    };
    let reading = || Errand::Read { endless: false };
    assert_eq!(
        refused(reading(), Progress::Line(Vec::new())),
        "daemon control connection closed"
    );
    assert_eq!(
        refused(reading(), Progress::TimedOut("late".to_string())),
        "daemon command timed out: late"
    );
    assert_eq!(
        refused(Errand::Validate { line: Vec::new() }, failed("no schema")),
        "invalid snapshot schema: no schema"
    );
    assert_eq!(refused(Errand::Send, failed("closed")), "closed");
}

#[test]
fn sessions_serve_whole_requests_of_the_user() {
    let request = Session::Peer.after(Happening::Peer { peer: 7, user: 7 });
    assert!(matches!(request, Session::Request));
    let understand = request.after(Happening::Line(b"{}\n".to_vec()));
    assert!(matches!(understand, Session::Understand { .. }));
    let show = understand.after(Happening::Command(WireCommand::Status));
    assert!(matches!(show, Session::Show { follow: false }));
    assert!(matches!(show.after(Happening::Done), Session::Finished(Ok(()))));
    let refused = |session: Session, happening: Happening| match session.after(happening) {
        Session::Finished(Err(message)) => message,
        _ => panic!("not refused"),
    };
    assert_eq!(
        refused(Session::Peer, Happening::Peer { peer: 0, user: 7 }),
        "control client has different ownership"
    );
    assert_eq!(
        refused(Session::Request, Happening::Line(b"{}".to_vec())),
        "invalid control request size"
    );
    assert_eq!(
        refused(
            Session::Understand { line: Vec::new() },
            Happening::Failed("no command".to_string())
        ),
        "invalid control request: no command"
    );
    assert_eq!(refused(Session::Request, Happening::Failed("late".to_string())), "late");
}

#[test]
fn sessions_follow_until_the_client_leaves() {
    let session = Session::Understand { line: Vec::new() };
    let session = session.after(Happening::Command(WireCommand::Watch));
    assert!(matches!(session, Session::Show { follow: true }));
    let session = session.after(Happening::Done);
    assert!(matches!(session, Session::Follow));
    let session = session.after(Happening::Changed).after(Happening::Done);
    assert!(matches!(session, Session::Follow));
    assert!(matches!(session.after(Happening::Left), Session::Finished(Ok(()))));
}

#[test]
fn sessions_pass_answers_on() {
    let session = || {
        Session::Understand { line: Vec::new() }.after(Happening::Command(WireCommand::Release))
    };
    assert!(matches!(session(), Session::Forward { command: Command::Release }));
    let answer = session().after(Happening::Answer(Ok(())));
    assert!(matches!(answer, Session::Answer { refusal: None }));
    let answer = session().after(Happening::Answer(Err("busy".to_string())));
    assert!(matches!(&answer, Session::Answer { refusal: Some(message) } if message == "busy"));
    assert!(matches!(answer.after(Happening::Done), Session::Finished(Ok(()))));
}

#[test]
fn incidents_are_supervised() {
    let mut slots = Slots::new();
    for _ in 0..16 {
        assert!(matches!(supervise(&mut slots, Incident::Accepted), Supervision::Serve));
    }
    assert!(matches!(supervise(&mut slots, Incident::Accepted), Supervision::TurnAway));
    assert!(matches!(supervise(&mut slots, Incident::ClientGone), Supervision::Wait));
    assert!(matches!(supervise(&mut slots, Incident::Accepted), Supervision::Serve));
    assert!(matches!(supervise(&mut slots, Incident::Signal), Supervision::Stop));
    assert!(matches!(
        supervise(&mut slots, Incident::PolicyEnded(Ok(()))),
        Supervision::Over(Ok(()))
    ));
    assert!(matches!(
        supervise(&mut slots, Incident::PolicyEnded(Err("lost".to_string()))),
        Supervision::Over(Err(message)) if message == "lost"
    ));
}

#[test]
fn responses_are_checked() {
    assert_eq!(response(b"{\"schema\": 1}\n"), Ok(()));
    assert_eq!(response(b""), Err("daemon control connection closed".to_string()));
    assert_eq!(
        response(&vec![b' '; 65537]),
        Err("daemon response exceeds protocol limit".to_string())
    );
    assert_eq!(
        response(b"{\"ok\": false, \"error\": \"busy\"}\n"),
        Err("busy".to_string())
    );
    assert_eq!(response(b"{\"ok\": false}\n"), Err("command failed".to_string()));
    assert_eq!(response(b"{\"ok\": true}\n"), Ok(()));
    assert!(response(b"{\n").unwrap_err().starts_with("invalid daemon response: EOF"));
    let refusal = Json::Object(vec![("ok".to_string(), Json::Bool(false))]);
    assert_eq!(answer(&refusal), Err("command failed".to_string()));
    assert_eq!(answer(&Json::Null), Ok(()));
}

#[test]
fn words_call_for_what_they_say() {
    assert!(matches!(execute(&words(&["daemon"])), Ok(Invocation::Daemon)));
    assert!(matches!(execute(&words(&["guard"])), Ok(Invocation::Guard)));
    assert!(matches!(
        execute(&words(&["status"])),
        Ok(Invocation::Client(WireCommand::Status))
    ));
    assert!(matches!(execute(&words(&["watch"])), Ok(Invocation::Client(WireCommand::Watch))));
    assert!(matches!(
        execute(&words(&["release"])),
        Ok(Invocation::Client(WireCommand::Release))
    ));
    assert!(matches!(execute(&words(&["--help"])), Ok(Invocation::Help)));
    assert!(matches!(execute(&words(&["-h"])), Ok(Invocation::Help)));
    assert!(matches!(
        execute(&words(&["setup", "aa:bb:cc:dd:ee:ff"])),
        Ok(Invocation::Client(WireCommand::Setup { address })) if address == DEVICE
    ));
    for (word, mode) in [
        ("off", Mode::Off),
        ("anc", Mode::Anc),
        ("transparency", Mode::Transparency),
        ("adaptive", Mode::Adaptive),
    ] {
        assert!(matches!(
            execute(&words(&["mode", word])),
            Ok(Invocation::Client(WireCommand::Mode { mode: named })) if named == mode
        ));
    }
    assert!(help().starts_with("airpodsd daemon|watch|status|"));
}

#[test]
fn misuse_is_explained() {
    let failure = |list: &[&str]| match execute(&words(list)) {
        Err(message) => message,
        Ok(_) => panic!("accepted"),
    };
    let usage =
        "usage: airpodsd daemon|watch|status|setup <MAC>|mode <off|anc|transparency|adaptive>|release";
    assert_eq!(failure(&[]), usage);
    assert_eq!(failure(&["Daemon"]), usage);
    assert_eq!(failure(&["status", "now"]), usage);
    assert_eq!(failure(&["mode", "off", "now"]), usage);
    assert_eq!(failure(&["mode", "loud"]), "mode must be off, anc, transparency, or adaptive");
    assert_eq!(
        failure(&["setup", "here"]),
        "invalid Bluetooth address: invalid Bluetooth address: here"
    );
}

#[test]
fn recovery_releases_only_after_it_restored() {
    let open = offline_guard(Some(config(true, None)), true);
    assert!(matches!(open, Recovery::Open { release: true, .. }));
    let restore = open.after(Ok(())).after(Ok(()));
    match &restore {
        Recovery::Restore { config, .. } => assert!(config.original_blocked),
        _ => panic!("nothing is restored"),
    }
    let saving = restore.after(Ok(()));
    match &saving {
        Recovery::Save { config, .. } => assert!(!config.managed),
        _ => panic!("nothing is stored"),
    }
    let again = saving.after(Err("disk full".to_string()));
    assert!(matches!(again, Recovery::Reblock { .. }));
    assert!(matches!(again.after(Ok(())),
        Recovery::Finished(Err(message)) if message == "disk full"));
    let saving = offline_guard(Some(config(true, None)), true)
        .after(Ok(()))
        .after(Ok(()))
        .after(Ok(()));
    assert!(matches!(saving.after(Ok(())), Recovery::Finished(Ok(()))));
    let failed = offline_guard(Some(config(true, None)), true)
        .after(Ok(()))
        .after(Ok(()))
        .after(Ok(()))
        .after(Err("disk full".to_string()))
        .after(Err("busy".to_string()));
    assert!(matches!(failed, Recovery::Finished(Err(message))
        if message == "release save failed and guard could not be restored: busy"));
}

#[test]
fn recovery_guards_only_what_is_under_control() {
    assert!(matches!(offline_guard(None, false), Recovery::Finished(Ok(()))));
    assert!(matches!(
        offline_guard(Some(config(false, None)), true),
        Recovery::Finished(Ok(()))
    ));
    let block = offline_guard(Some(config(true, None)), false).after(Ok(())).after(Ok(()));
    assert!(matches!(block, Recovery::Block { .. }));
    assert!(matches!(block.after(Err("busy".to_string())),
        Recovery::Finished(Err(message)) if message == "busy"));
    let closed = offline_guard(Some(config(true, None)), false).after(Err("bus".to_string()));
    assert!(matches!(closed, Recovery::Finished(Err(message))
        if message == "BlueZ is unavailable; device guard cannot be changed: bus"));
}

#[test]
fn configurations_lie_below_an_absolute_directory() {
    let path = |xdg: Option<&str>, home: Option<&str>| {
        config_path(
            xdg.map(|p| p.as_bytes().to_vec()),
            home.map(|p| p.as_bytes().to_vec()),
        )
        .map(|path| String::from_utf8(path).unwrap())
    };
    assert_eq!(path(Some("/c"), Some("/h")), Ok("/c/omarchy-airpods/config.json".to_string()));
    assert_eq!(path(Some("/c/"), None), Ok("/c/omarchy-airpods/config.json".to_string()));
    assert_eq!(
        path(None, Some("/h")),
        Ok("/h/.config/omarchy-airpods/config.json".to_string())
    );
    assert_eq!(path(None, None), Err("HOME is not set".to_string()));
    let relative = Err("configuration directory must be absolute".to_string());
    assert_eq!(path(Some("c"), None), relative);
    assert_eq!(path(None, Some("")), relative);
    assert_eq!(runtime_dir(Some(b"/run".to_vec())), Ok(b"/run/omarchy-airpods".to_vec()));
    assert_eq!(
        runtime_dir(Some(b"run".to_vec())),
        Err("runtime directory must be absolute".to_string())
    );
    assert_eq!(runtime_dir(None), Err("XDG_RUNTIME_DIR is not set".to_string()));
}

#[test]
fn private_files_belong_to_the_user() {
    assert_eq!(private_dir(Found::Missing, 7), Ok(true));
    assert_eq!(private_dir(Found::Entry { directory: true, owner: 7 }, 7), Ok(false));
    let refused = Err("private directory has unsafe ownership or type".to_string());
    assert_eq!(private_dir(Found::Entry { directory: false, owner: 7 }, 7), refused);
    assert_eq!(private_dir(Found::Entry { directory: true, owner: 8 }, 7), refused);
    assert_eq!(private_dir(Found::Failed("denied".to_string()), 7), Err("denied".to_string()));
    assert_eq!(private_open(true, 7, 7, 0o100600), Ok(false));
    assert_eq!(private_open(true, 7, 7, 0o100640), Ok(true));
    let refused = Err("private file has unsafe ownership or type".to_string());
    assert_eq!(private_open(false, 7, 7, 0o600), refused);
    assert_eq!(private_open(true, 8, 7, 0o600), refused);
    assert_eq!(check_size(16384), Ok(()));
    assert_eq!(check_size(16385), Err("configuration file is too large".to_string()));
}

#[test]
fn only_usable_configurations_are_loaded() {
    assert!(matches!(load(None), Ok(None)));
    assert!(matches!(load(Some(Ok(config(true, keys())))), Ok(Some(_))));
    let refused = |stored: Result<Config, ()>| match load(Some(stored)) {
        Err(message) => message,
        Ok(_) => panic!("accepted"),
    };
    assert_eq!(refused(Err(())), "invalid private configuration");
    let mut other = config(true, None);
    other.schema = 2;
    assert_eq!(refused(Ok(other)), "invalid private configuration identity");
    let mut other = config(true, None);
    other.adapter = "hci0".to_string();
    assert_eq!(refused(Ok(other)), "invalid private configuration identity");
    let mut other = config(true, None);
    other.address = "x".to_string();
    assert_eq!(refused(Ok(other)), "invalid private configuration identity");
    let other = config(true, Some(Keys { irk: [0; 16], enc: [2; 16] }));
    assert_eq!(refused(Ok(other)), "invalid stored proximity keys; run setup again");
}

#[test]
fn configurations_are_replaced_whole() {
    let mut step = Replacing::Create;
    for _ in 0..4 {
        step = save(step, Ok(()));
    }
    assert!(matches!(step, Replacing::Rename));
    step = save(step, Ok(()));
    assert!(matches!(step, Replacing::SyncDirectory));
    assert!(matches!(save(step, Ok(())), Replacing::Finished(Ok(()))));
    let step = save(Replacing::Create, Ok(()));
    let step = save(step, Err("disk full".to_string()));
    assert!(matches!(step, Replacing::Remove { .. }));
    assert!(matches!(save(step, Err("gone".to_string())),
        Replacing::Finished(Err(message)) if message == "disk full"));
    assert!(matches!(save(Replacing::Create, Err("exists".to_string())),
        Replacing::Finished(Err(message)) if message == "exists"));
}

#[test]
fn a_configuration_is_usable_with_control_and_keys() {
    assert!(config(true, keys()).configured());
    assert!(!config(true, None).configured());
    assert!(!config(false, keys()).configured());
}
