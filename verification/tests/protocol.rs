use airpodsd::model::{wearing, Battery, Cell, Mode};
use airpodsd::protocol::{
    advertisement, battery_byte, ear, mode_packet, parse, resolve_rpa, Packet,
};

#[test]
fn identity_resolution_requires_matching_hash_and_private_address_type() {
    let irk = [
        0x9b, 0x7d, 0x39, 0x0a, 0xa6, 0x10, 0x10, 0x34, 0x05, 0xad, 0xc8, 0x57, 0xa3, 0x34, 0x02,
        0xec,
    ];
    assert!(resolve_rpa([0x70, 0x81, 0x94, 0x0d, 0xfb, 0xaa], &irk));
    assert!(!resolve_rpa([0x70, 0x81, 0x94, 0x0d, 0xfb, 0xab], &irk));
    assert!(!resolve_rpa([0xf0, 0x81, 0x94, 0x0d, 0xfb, 0xaa], &irk));
}

#[test]
fn short_ear_and_key_packets_are_not_observations() {
    for n in 0..8 {
        assert!(parse(&[4, 0, 4, 0, 6, 0, 0, 0][..n]).is_none());
    }
    let mut keys = vec![4, 0, 4, 0, 0x31, 0, 1, 1, 0, 16, 0];
    keys.extend([1; 16]);
    for n in 0..keys.len() {
        assert!(parse(&keys[..n]).is_none());
    }
    assert!(matches!(parse(&keys), Some(Packet::Keys(_))));
}

#[test]
fn unknown_ear_status_never_authorizes() {
    let Some(Packet::Ear(ears)) = parse(&[4, 0, 4, 0, 6, 0, 3, 0xff]) else {
        panic!("ear packet")
    };
    assert!(!wearing(ears));
}

#[test]
fn disconnected_battery_is_unknown_not_zero() {
    let Some(Packet::Batteries { battery: b, .. }) =
        parse(&[4, 0, 4, 0, 4, 0, 1, 4, 0, 0, 4, 0])
    else {
        panic!("battery packet")
    };
    assert_eq!(b.left, Cell::default());
}

#[test]
fn aap_primary_follows_first_earbud_not_case_or_component_number() {
    let Some(Packet::Batteries { primary_left, .. }) = parse(&[
        4, 0, 4, 0, 4, 0, 3, 8, 1, 90, 2, 1, 2, 1, 80, 2, 1, 4, 1, 70, 2, 1,
    ]) else {
        panic!("battery packet")
    };
    assert_eq!(primary_left, Some(false));
    let Some(Packet::Batteries { primary_left, .. }) =
        parse(&[4, 0, 4, 0, 4, 0, 2, 4, 1, 70, 2, 1, 2, 1, 80, 2, 1])
    else {
        panic!("battery packet")
    };
    assert_eq!(primary_left, Some(true));
}

#[test]
fn contradictory_case_bits_never_authorize() {
    let mut bytes = [0; 27];
    bytes[0] = 7;
    bytes[1] = 25;
    bytes[2] = 1;
    bytes[5] = 4 | 2;
    assert!(!wearing(advertisement(&bytes, &[1; 16]).unwrap().ears));
    bytes[5] = 0;
    assert!(!wearing(advertisement(&bytes, &[1; 16]).unwrap().ears));
}

#[test]
fn the_first_byte_of_an_ear_entry_tells_whether_it_is_worn() {
    assert_eq!(ear(0), Some(true));
    assert_eq!(ear(1), Some(false));
    assert_eq!(ear(2), Some(false));
    assert_eq!(ear(3), None);
    assert_eq!(ear(255), None);
}

#[test]
fn a_battery_byte_holds_the_charge_and_whether_it_rises() {
    assert_eq!(battery_byte(50), Cell { percent: Some(50), charging: Some(false) });
    assert_eq!(battery_byte(0x80 | 100), Cell { percent: Some(100), charging: Some(true) });
    assert_eq!(battery_byte(101), Cell::default());
    assert_eq!(battery_byte(0xff), Cell::default());
    assert_eq!(battery_byte(0), Cell { percent: Some(0), charging: Some(false) });
}

#[test]
fn mode_packets_carry_the_code_of_the_mode() {
    assert_eq!(mode_packet(Mode::Off), [4, 0, 4, 0, 9, 0, 0x0d, 1, 0, 0, 0]);
    assert_eq!(mode_packet(Mode::Adaptive), [4, 0, 4, 0, 9, 0, 0x0d, 4, 0, 0, 0]);
    for mode in [Mode::Off, Mode::Anc, Mode::Transparency, Mode::Adaptive] {
        let Some(Packet::Mode(reported)) = parse(&mode_packet(mode)) else {
            panic!("mode packet")
        };
        assert_eq!(reported, Some(mode));
    }
    let Some(Packet::Mode(reported)) = parse(&[4, 0, 4, 0, 9, 0, 0x0d, 9, 0, 0, 0]) else {
        panic!("mode packet")
    };
    assert_eq!(reported, None);
}

#[test]
fn bytes_after_a_packet_change_nothing() {
    let Some(Packet::Ear(ears)) = parse(&[4, 0, 4, 0, 6, 0, 0, 1, 9, 9]) else {
        panic!("ear packet")
    };
    assert_eq!(ears, [Some(true), Some(false)]);
    let Some(Packet::Batteries { battery, primary_left }) =
        parse(&[4, 0, 4, 0, 4, 0, 1, 4, 0, 70, 2, 0, 2, 0, 60, 1, 0])
    else {
        panic!("battery packet")
    };
    assert_eq!(battery.left.percent, Some(70));
    assert_eq!(battery.right.percent, None);
    assert_eq!(primary_left, Some(true));
    let mut keys = vec![4, 0, 4, 0, 0x31, 0, 1, 1, 0, 16, 0];
    keys.extend([7; 16]);
    keys.extend([4, 0, 16, 0]);
    keys.extend([9; 16]);
    let Some(Packet::Keys(keys)) = parse(&keys) else { panic!("key packet") };
    assert_eq!(keys.irk, Some([7; 16]));
    assert_eq!(keys.enc, None);
}

#[test]
fn a_battery_report_is_read_entry_by_entry() {
    let Some(Packet::Batteries { battery, primary_left }) = parse(&[
        4, 0, 4, 0, 4, 0, 3, 4, 1, 70, 2, 1, 2, 1, 80, 1, 1, 8, 1, 101, 2, 1,
    ]) else {
        panic!("battery packet")
    };
    assert_eq!(primary_left, Some(true));
    assert_eq!(
        battery,
        Battery {
            left: Cell { percent: Some(70), charging: Some(false) },
            right: Cell { percent: Some(80), charging: Some(true) },
            case: Cell::default(),
        }
    );
    assert!(parse(&[4, 0, 4, 0, 4, 0, 2, 4, 1, 70, 2, 1]).is_none());
}

#[test]
fn keys_are_taken_once_and_never_when_zero() {
    let record = |kind: u8, byte: u8| {
        let mut bytes = vec![kind, 0, 16, 0];
        bytes.extend([byte; 16]);
        bytes
    };
    let packet = |records: &[Vec<u8>]| {
        let mut bytes = vec![4, 0, 4, 0, 0x31, 0, records.len() as u8];
        for record in records {
            bytes.extend(record);
        }
        bytes
    };
    let Some(Packet::Keys(keys)) = parse(&packet(&[record(1, 7), record(4, 9)])) else {
        panic!("key packet")
    };
    assert_eq!(keys.irk, Some([7; 16]));
    assert_eq!(keys.enc, Some([9; 16]));
    assert!(parse(&packet(&[record(1, 0)])).is_none());
    assert!(parse(&packet(&[record(4, 9), record(4, 9)])).is_none());
    assert!(parse(&packet(&[vec![1, 0, 2, 0, 5, 5]])).is_none());
    let Some(Packet::Keys(keys)) = parse(&packet(&[vec![2, 0, 2, 0, 5, 5], record(4, 9)])) else {
        panic!("key packet")
    };
    assert_eq!(keys.irk, None);
    assert_eq!(keys.enc, Some([9; 16]));
}

#[test]
fn an_advertisement_shows_ears_and_charge() {
    let enc = [0; 16];
    let mut bytes = [0; 27];
    bytes[0] = 7;
    bytes[1] = 25;
    bytes[2] = 1;
    bytes[5] = 0x20 | 2;
    // The block that the all-zero key turns into an all-zero one.
    bytes[11..].copy_from_slice(&[
        0x66, 0xe9, 0x4b, 0xd4, 0xef, 0x8a, 0x2c, 0x3b, 0x88, 0x4c, 0xfa, 0x59, 0xca, 0x34, 0x2b,
        0x2e,
    ]);
    let seen = advertisement(&bytes, &enc).unwrap();
    assert_eq!(seen.ears, [Some(true), Some(false)]);
    let empty = Cell { percent: Some(0), charging: Some(false) };
    assert_eq!(seen.battery, Battery { left: empty, right: empty, case: empty });
    bytes[5] = 2;
    assert_eq!(advertisement(&bytes, &enc).unwrap().ears, [Some(false), Some(true)]);
    bytes[5] = 4;
    assert_eq!(advertisement(&bytes, &enc).unwrap().ears, [Some(false), Some(false)]);
    bytes[2] = 0;
    assert!(advertisement(&bytes, &enc).is_none());
    assert!(advertisement(&bytes[..26], &enc).is_none());
}
