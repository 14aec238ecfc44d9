use airpodsd::address;
use airpodsd::audio::{aac_profile, audio_warning, prefer_aac, profile_set, select_profile};
use airpodsd::bluetooth::{
    adapter, attach, block, connect, connection_ended, exception_ended, paired, send, Ended, Event,
    Guard, Link, Search, Seen, Write,
};
use airpodsd::daemon::Outcome;
use airpodsd::json::{parse, Json};
use airpodsd::policy::Exception;
use airpodsd::scanner::{emit_data, recognized, scanner, Finding, Scan, Scanner, Sight};
use airpodsd::storage::Keys;
use std::collections::HashMap;

const DEVICE: &str = "AA:BB:CC:DD:EE:FF";
const TARGET: [u8; 6] = [0xAA, 0xBB, 0xCC, 0xDD, 0xEE, 0xFF];
const IRK: [u8; 16] = [
    0x9b, 0x7d, 0x39, 0x0a, 0xa6, 0x10, 0x10, 0x34, 0x05, 0xad, 0xc8, 0x57, 0xa3, 0x34, 0x02, 0xec,
];
const HIDDEN: [u8; 6] = [0x70, 0x81, 0x94, 0x0d, 0xfb, 0xaa];

fn object(members: Vec<(&str, Json)>) -> Json {
    Json::Object(members.into_iter().map(|(name, value)| (name.to_string(), value)).collect())
}

fn text(text: &str) -> Json {
    Json::Text(text.to_string())
}

#[test]
fn aac_selection_uses_description_and_rejects_unavailable_profiles() {
    let card = |available: &str| {
        object(vec![(
            "profiles",
            object(vec![
                (
                    "a2dp-sink",
                    object(vec![
                        (
                            "description",
                            text("High Fidelity Playback (A2DP Sink, codec AAC)"),
                        ),
                        ("available", text(available)),
                    ]),
                ),
                (
                    "a2dp-sink-sbc",
                    object(vec![
                        ("description", text("High Fidelity Playback (SBC)")),
                        ("available", text("yes")),
                    ]),
                ),
            ]),
        )])
    };
    assert_eq!(aac_profile(&card("yes")), Some("a2dp-sink"));
    assert_eq!(aac_profile(&card("no")), None);
}

#[test]
fn aac_may_stand_in_the_name_and_in_upper_case() {
    let card = parse(br#"{"profiles": {"a2dp-AAC": {}, "hfp-aac": {}}}"#).unwrap();
    assert_eq!(aac_profile(&card), Some("a2dp-AAC"));
    let card = parse(br#"{"profiles": []}"#).unwrap();
    assert_eq!(aac_profile(&card), None);
    assert_eq!(aac_profile(&Json::Null), None);
}

#[test]
fn the_card_of_the_device_gets_the_profile() {
    let cards = br#"[
        {"name": "pci", "properties": {"device.string": "0"}, "profiles": {"a2dp-aac": {}}},
        {"name": "bluez", "properties": {"api.bluez5.address": "aa:bb:cc:dd:ee:ff"},
         "active_profile": "off", "profiles": {"off": {}, "a2dp-aac": {"available": "unknown"}}}
    ]"#;
    assert_eq!(
        prefer_aac(true, cards, DEVICE),
        Ok(Some(("bluez".to_string(), "a2dp-aac".to_string())))
    );
    assert_eq!(prefer_aac(true, cards, "01:02:03:04:05:06"), Ok(None));
    assert_eq!(prefer_aac(false, cards, DEVICE), Err("audio profile query failed".to_string()));
    assert!(prefer_aac(true, b"[", DEVICE)
        .unwrap_err()
        .starts_with("invalid audio card response: EOF"));
    assert_eq!(prefer_aac(true, b"{}", DEVICE), Err("invalid audio card list".to_string()));
    let active = br#"[{"properties": {"device.string": "AA:BB:CC:DD:EE:FF"},
        "active_profile": "a2dp-aac", "profiles": {"a2dp-aac": {}}}]"#;
    assert_eq!(prefer_aac(true, active, DEVICE), Ok(None));
    let nameless = parse(
        br#"[{"properties": {"device.string": "AA:BB:CC:DD:EE:FF"}, "profiles": {"a2dp-aac": {}}}]"#,
    )
    .unwrap();
    assert_eq!(
        select_profile(&nameless, DEVICE),
        Err("audio card name is missing".to_string())
    );
    assert_eq!(profile_set(true), Ok(()));
    assert_eq!(profile_set(false), Err("AAC profile selection failed".to_string()));
    match audio_warning(7, "no server") {
        Event::AudioWarning { generation, message } => {
            assert_eq!(generation, 7);
            assert_eq!(message, "Connected; AAC preference unavailable: no server");
        }
        _ => panic!("no warning"),
    }
}

#[test]
fn documents_are_read_as_they_are() {
    match parse(br#"{"b": [null, true, 1], "a": "x"}"#).unwrap() {
        Json::Object(members) => {
            assert_eq!(members.len(), 2);
            assert_eq!(members[0].0, "a");
            assert!(matches!(&members[0].1, Json::Text(s) if s == "x"));
            match &members[1].1 {
                Json::Array(items) => {
                    assert!(matches!(items[0], Json::Null));
                    assert!(matches!(items[1], Json::Bool(true)));
                    assert!(matches!(items[2], Json::Number));
                }
                _ => panic!("no array"),
            }
        }
        _ => panic!("no object"),
    }
    assert!(parse(b"{").is_err());
}

#[test]
fn addresses_are_read_in_either_case() {
    assert_eq!(address::parse("aa:bb:CC:dd:ee:ff"), Ok(TARGET));
    assert_eq!(address::parse("0:1:2:3:4:5"), Ok([0, 1, 2, 3, 4, 5]));
    assert_eq!(
        address::parse("AA:BB:CC:DD:EE"),
        Err("invalid Bluetooth address: AA:BB:CC:DD:EE".to_string())
    );
    assert_eq!(
        address::parse("AA:BB:CC:DD:EE:GG"),
        Err("invalid Bluetooth address: GG".to_string())
    );
    assert!(address::parse("").is_err());
}

#[test]
fn the_first_adapter_with_the_wanted_address_is_taken() {
    let other = [1, 2, 3, 4, 5, 6];
    let search = adapter(Some(DEVICE)).listed(Ok(3));
    let search = search.read(Ok(other)).read(Ok(TARGET));
    assert!(matches!(search, Search::Found { index: 1 }));
    let search = adapter(Some(DEVICE)).listed(Ok(2)).read(Ok(other)).read(Ok(other));
    assert!(matches!(search,
        Search::Failed(message) if message == "configured Bluetooth adapter is unavailable"));
    let search = adapter(Some(DEVICE)).listed(Ok(0));
    assert!(matches!(search, Search::Failed(_)));
    let search = adapter(Some(DEVICE)).listed(Ok(2)).read(Err("gone".to_string()));
    assert!(matches!(search, Search::Failed(message) if message == "gone"));
    let search = adapter(Some(DEVICE)).listed(Err("bus".to_string()));
    assert!(matches!(search, Search::Failed(message) if message == "bus"));
    assert!(matches!(adapter(None), Search::Default));
    assert!(matches!(adapter(Some("x")), Search::Failed(_)));
}

#[test]
fn paired_devices_are_listed_by_name_and_address() {
    let seen = |last: u8, paired: bool, name: Option<&str>| Seen {
        address: [0, 0, 0, 0, 0, last],
        paired,
        name: name.map(str::to_string),
    };
    let devices = paired(vec![
        seen(9, true, Some("b")),
        seen(3, true, Some("a")),
        seen(4, false, Some("A")),
        seen(5, true, None),
        seen(2, true, Some("a")),
    ]);
    let listed: Vec<(&str, &str)> =
        devices.iter().map(|d| (d.name.as_str(), d.address.as_str())).collect();
    assert_eq!(
        listed,
        vec![
            ("00:00:00:00:00:05", "00:00:00:00:00:05"),
            ("a", "00:00:00:00:00:02"),
            ("a", "00:00:00:00:00:03"),
            ("b", "00:00:00:00:00:09"),
        ]
    );
}

fn failed(guard: Guard) -> String {
    match guard {
        Guard::Finished(Err(message)) => message,
        _ => panic!("no failure"),
    }
}

#[test]
fn a_guard_is_confirmed_by_the_device() {
    let asked = || block(DEVICE).acted(Ok(())).acted(Err("busy".to_string()));
    assert!(matches!(
        asked().told(Ok(true)).told(Ok(false)),
        Guard::Finished(Ok(()))
    ));
    assert_eq!(
        failed(asked().told(Ok(true)).told(Ok(true))),
        "cannot disconnect guarded device: busy"
    );
    assert_eq!(failed(asked().told(Ok(false))), "cannot disconnect guarded device: busy");
    assert_eq!(
        failed(block(DEVICE).acted(Ok(())).acted(Ok(())).told(Ok(false))),
        "device connection guard could not be confirmed"
    );
    assert_eq!(
        failed(block(DEVICE).acted(Err("denied".to_string()))),
        "cannot install device connection guard: denied"
    );
    assert_eq!(failed(asked().told(Err("gone".to_string()))), "gone");
    assert_eq!(failed(asked().told(Ok(true)).told(Err("gone".to_string()))), "gone");
    assert_eq!(failed(block("nowhere")), "invalid Bluetooth address: nowhere");
}

#[test]
fn packets_are_sent_whole_or_not_at_all() {
    assert_eq!(send(8, Write::Wrote(8)), Ok(()));
    assert_eq!(send(8, Write::Wrote(7)), Err("short AAP packet write".to_string()));
    assert_eq!(
        send(8, Write::TimedOut("late".to_string())),
        Err("AAP write timed out: late".to_string())
    );
    assert_eq!(send(8, Write::Failed("reset".to_string())), Err("reset".to_string()));
}

#[test]
fn a_link_takes_every_step() {
    let link = connect(DEVICE);
    assert!(matches!(link, Link::Device { address: TARGET }));
    let link = link.after(Ended::Done);
    assert!(matches!(link, Link::Socket { address: TARGET }));
    let link = link.after(Ended::Done);
    assert!(matches!(link, Link::Channel { address: TARGET }));
    let link = link.after(Ended::Done);
    assert!(matches!(link, Link::Handshake));
    let link = link.after(Ended::Done);
    assert!(matches!(link, Link::Notifications));
    assert!(matches!(link.after(Ended::Done), Link::Attached));
    let failed = |link: Link, ended: Ended| match link.after(ended) {
        Link::Failed(message) => message,
        _ => panic!("no failure"),
    };
    let e = || "e".to_string();
    assert_eq!(failed(connect(DEVICE), Ended::Failed(e())), "Bluetooth connection failed: e");
    assert_eq!(failed(attach(TARGET), Ended::Failed(e())), "e");
    assert_eq!(
        failed(attach(TARGET).after(Ended::Done), Ended::TimedOut(e())),
        "AAP connect timed out: e"
    );
    assert_eq!(
        failed(attach(TARGET).after(Ended::Done), Ended::Failed(e())),
        "AAP control channel unavailable: e"
    );
    assert_eq!(failed(Link::Handshake, Ended::Failed(e())), "e");
    assert!(matches!(connect("x"), Link::Failed(_)));
}

#[test]
fn ends_of_connections_are_reported() {
    match connection_ended(3, None) {
        Event::Ready { generation, result } => {
            assert_eq!(generation, 3);
            assert_eq!(result, Err("Bluetooth connection timed out".to_string()));
        }
        _ => panic!("no report"),
    }
    assert!(matches!(
        connection_ended(3, Some(Ok(()))),
        Event::Ready { generation: 3, result: Ok(()) }
    ));
    let failed = |step: Exception, ended: Ended| match exception_ended(step, ended) {
        Outcome::Failed(message) => message,
        _ => panic!("no failure"),
    };
    assert_eq!(
        failed(Exception::Connect, Ended::Failed("e".to_string())),
        "setup Bluetooth connection failed: e"
    );
    assert_eq!(failed(Exception::Attach, Ended::Failed("e".to_string())), "e");
    assert_eq!(
        failed(Exception::Receive, Ended::TimedOut("late".to_string())),
        "setup timed out waiting for valid proximity keys: late"
    );
    assert!(matches!(exception_ended(Exception::Unblock, Ended::Done), Outcome::Done));
}

fn data(company: u16) -> HashMap<u16, Vec<u8>> {
    HashMap::from([(company, vec![1, 2, 3])])
}

fn scanning(known: Vec<[u8; 6]>) -> Scanner {
    let keys = Some(Keys { irk: IRK, enc: [2; 16] });
    let (mut scanner, scan) = scanner(DEVICE, &keys, known).ok().unwrap();
    assert!(matches!(scan, Scan::Subscribe { address: TARGET }));
    assert!(matches!(scanner.found(Finding::Subscribed), Scan::Wait { report: None }));
    scanner
}

/// What is reported of a newly found address that was cached before, or not.
fn first_report(scanner: &mut Scanner) -> Option<Event> {
    assert!(matches!(
        scanner.saw(Sight::Added { address: HIDDEN }),
        Scan::QueryKind { address: HIDDEN }
    ));
    assert!(matches!(
        scanner.found(Finding::Random(true)),
        Scan::Subscribe { address: HIDDEN }
    ));
    assert!(matches!(
        scanner.found(Finding::Subscribed),
        Scan::QueryData { address: HIDDEN }
    ));
    match scanner.found(Finding::Data { data: Some(data(76)), at: 5 }) {
        Scan::Wait { report } => report,
        _ => panic!("the scanner does not wait"),
    }
}

fn failure(scan: Scan) -> String {
    match scan {
        Scan::End { failure: Event::Failure(message) } => message,
        _ => panic!("the scan goes on"),
    }
}

#[test]
fn only_hidden_addresses_of_the_device_are_followed() {
    assert!(recognized(HIDDEN, &Some(IRK)));
    assert!(!recognized(TARGET, &Some(IRK)));
    assert!(!recognized(HIDDEN, &None));
    let mut scanner = scanning(Vec::new());
    assert!(matches!(
        scanner.saw(Sight::Added { address: [0x70, 0, 0, 0, 0, 0] }),
        Scan::Wait { report: None }
    ));
    assert!(matches!(first_report(&mut scanner),
        Some(Event::Advertisement { data, at: 5, fresh: true }) if data == vec![1, 2, 3]));
    // Once is enough.
    assert!(matches!(
        scanner.saw(Sight::Added { address: HIDDEN }),
        Scan::Wait { report: None }
    ));
    assert!(matches!(
        scanner.saw(Sight::Removed { address: HIDDEN }),
        Scan::Wait { report: None }
    ));
    assert!(matches!(
        scanner.saw(Sight::Added { address: HIDDEN }),
        Scan::QueryKind { .. }
    ));
    assert!(matches!(scanner.found(Finding::Random(false)), Scan::Wait { report: None }));
}

#[test]
fn cached_addresses_are_reported_as_not_fresh() {
    let mut scanner = scanning(vec![[9; 6], HIDDEN]);
    assert!(matches!(
        first_report(&mut scanner),
        Some(Event::Advertisement { fresh: false, .. })
    ));
    match scanner.saw(Sight::Data { address: HIDDEN, data: data(76), at: 6 }) {
        Scan::Wait { report: Some(Event::Advertisement { fresh, at, .. }) } => {
            assert!(fresh);
            assert_eq!(at, 6);
        }
        _ => panic!("nothing is reported"),
    }
    assert!(matches!(
        scanner.saw(Sight::Data { address: HIDDEN, data: data(77), at: 6 }),
        Scan::Wait { report: None }
    ));
    assert!(matches!(
        scanner.saw(Sight::Data { address: TARGET, data: data(76), at: 6 }),
        Scan::Wait { report: None }
    ));
    assert!(emit_data(&data(75), 0, true).is_none());
}

#[test]
fn only_the_device_is_reported_as_connected_or_blocked() {
    let mut scanner = scanning(Vec::new());
    assert!(matches!(
        scanner.saw(Sight::Connected { address: TARGET, connected: true }),
        Scan::Wait { report: Some(Event::Connected(true)) }
    ));
    assert!(matches!(
        scanner.saw(Sight::Connected { address: HIDDEN, connected: true }),
        Scan::Wait { report: None }
    ));
    assert!(matches!(
        scanner.saw(Sight::Blocked { address: TARGET, blocked: false }),
        Scan::Wait { report: Some(Event::Blocked(false)) }
    ));
    assert!(matches!(
        scanner.saw(Sight::Blocked { address: HIDDEN, blocked: false }),
        Scan::Wait { report: None }
    ));
    assert!(matches!(scanner.saw(Sight::Other), Scan::Wait { report: None }));
}

#[test]
fn scans_end_with_a_reason() {
    assert_eq!(
        failure(scanning(Vec::new()).saw(Sight::Removed { address: TARGET })),
        "configured Bluetooth device was removed"
    );
    assert_eq!(
        failure(scanning(Vec::new()).saw(Sight::PoweredOff)),
        "Bluetooth adapter is powered off"
    );
    assert_eq!(
        failure(scanning(Vec::new()).saw(Sight::Stopped)),
        "Bluetooth LE discovery stopped"
    );
    let mut scanner = scanning(Vec::new());
    scanner.saw(Sight::Added { address: HIDDEN });
    assert_eq!(failure(scanner.found(Finding::Failed("gone".to_string()))), "gone");
    assert!(airpodsd::scanner::scanner("x", &None, Vec::new()).is_err());
}
