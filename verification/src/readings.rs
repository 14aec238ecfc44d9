//! What packets and frames say, byte by byte.
use crate::model::{Cell, Mode};
use crate::protocol::{
    acceptable, advertised, advertised_to, all_zero, component, is_key, key_of, key_records,
    mode_request, parsed, primary, usable_key, KeyRecord, PacketView,
};
use vstd::prelude::*;

verus! {

/// The charge in one byte of a frame, in numbers: up to a hundred it is not
/// charging, from 128 to 228 it is charging, and any other byte says nothing.
pub open spec fn tells(cell: Cell, byte: u8) -> bool {
    if byte <= 100 {
        cell.percent == Some(byte) && cell.charging == Some(false)
    } else if 128 <= byte <= 228 {
        cell.percent == Some((byte - 128) as u8) && cell.charging == Some(true)
    } else {
        cell.percent is None && cell.charging is None
    }
}

proof fn bytes_tell(byte: u8)
    ensures
        tells(crate::protocol::byte_cell(byte), byte),
{
    assert(byte <= 127 ==> byte & 0x7f == byte && byte & 0x80 == 0) by (bit_vector);
    assert(byte >= 128 ==> byte & 0x7f == byte - 128 && byte & 0x80 != 0) by (bit_vector);
}

/// In a frame the first charge is that of the primary bud and the second that of
/// the other one: the left bud is the primary one exactly where the bit 0x20 of the
/// status is set. The third charge is that of the case.
pub proof fn charges_are_shown_on_their_sides(data: Seq<u8>, block: Seq<u8>)
    requires
        data.len() == 27,
        data[0] == 7,
        data[1] == 25,
        data[2] != 0,
        block.len() == 16,
    ensures
        advertised(data, block) matches Some(seen) && {
            &&& data[5] & 0x20 != 0 ==> tells(seen.battery.left, block[1]) && tells(
                seen.battery.right,
                block[2],
            )
            &&& data[5] & 0x20 == 0 ==> tells(seen.battery.right, block[1]) && tells(
                seen.battery.left,
                block[2],
            )
            &&& tells(seen.battery.case, block[3])
        },
{
    bytes_tell(block[1]);
    bytes_tell(block[2]);
    bytes_tell(block[3]);
}

/// In a frame the bit 2 of the status is the ear of the primary bud and the bit 8
/// that of the other one, and the other way round while the primary bud is in the
/// case. Where both are in the case none is in an ear, and a frame that says
/// otherwise says nothing of the ears.
pub proof fn ears_are_shown_on_their_sides(data: Seq<u8>, block: Seq<u8>)
    requires
        data.len() == 27,
        data[0] == 7,
        data[1] == 25,
        data[2] != 0,
    ensures
        advertised(data, block) matches Some(seen) && {
            let (first, other) = if data[5] & 0x20 != 0 {
                (seen.ears.0, seen.ears.1)
            } else {
                (seen.ears.1, seen.ears.0)
            };
            if data[5] & 4 != 0 {
                if data[5] & 2 != 0 || data[5] & 8 != 0 {
                    first is None && other is None
                } else {
                    first == Some(false) && other == Some(false)
                }
            } else if data[5] & 0x40 == 0 {
                first == Some(data[5] & 2 != 0) && other == Some(data[5] & 8 != 0)
            } else {
                first == Some(data[5] & 8 != 0) && other == Some(data[5] & 2 != 0)
            }
        },
{
}

/// Two frames that differ only in which bud is the primary one are each other's
/// mirror image.
pub proof fn the_other_primary_bud_is_the_mirror_image(data: Seq<u8>, block: Seq<u8>)
    requires
        advertised(data, block) is Some,
    ensures
        advertised(data.update(5, data[5] ^ 0x20), block) matches Some(mirrored) && (advertised(
            data,
            block,
        ) matches Some(seen) && {
            &&& mirrored.ears == (seen.ears.1, seen.ears.0)
            &&& mirrored.battery.left == seen.battery.right
            &&& mirrored.battery.right == seen.battery.left
            &&& mirrored.battery.case == seen.battery.case
        }),
{
    let s = data[5];
    let t = s ^ 0x20;
    assert((t & 0x20 != 0) == (s & 0x20 == 0) && t & 0x40 == s & 0x40 && t & 2 == s & 2 && t & 4
        == s & 4 && t & 8 == s & 8) by (bit_vector)
        requires
            t == s ^ 0x20,
    ;
}

/// Of a frame only its first three bytes, its status and its last sixteen bytes
/// matter.
pub proof fn the_rest_of_a_frame_says_nothing(a: Seq<u8>, b: Seq<u8>, enc: Seq<u8>)
    requires
        a.len() == 27,
        b.len() == 27,
        a[0] == b[0],
        a[1] == b[1],
        a[2] == b[2],
        a[5] == b[5],
        forall|i: int| 11 <= i < 27 ==> a[i] == b[i],
    ensures
        advertised_to(a, enc) == advertised_to(b, enc),
        advertised_to(a, enc) == advertised(
            b,
            crate::cipher::decrypted(enc, Seq::new(16, |i: int| a[11 + i])),
        ),
{
    assert(a.subrange(11, 27) =~= b.subrange(11, 27));
    assert(a.subrange(11, 27) =~= Seq::new(16, |i: int| a[11 + i]));
}

/// A packet of the kind 6 tells of two buds: 0 is in the ear, 1 and 2 are out of
/// it, and nothing else is known. The first byte is of the first bud.
pub proof fn ear_packets_are_read(packet: Seq<u8>)
    requires
        packet.len() >= 8,
        packet[0] == 4,
        packet[1] == 0,
        packet[2] == 4,
        packet[3] == 0,
        packet[4] == 6,
        packet[5] == 0,
    ensures
        parsed(packet) matches Some(PacketView::Ear(ears)) && {
            &&& ears.0 == Some(true) <==> packet[6] == 0
            &&& ears.0 == Some(false) <==> packet[6] == 1 || packet[6] == 2
            &&& ears.1 == Some(true) <==> packet[7] == 0
            &&& ears.1 == Some(false) <==> packet[7] == 1 || packet[7] == 2
        },
{
}

/// A packet of the kind 9 and the subject 13 reports a mode: 1 is off, 2 cancels
/// noise, 3 is transparent, 4 adapts, and any other number is no mode that is
/// known.
pub proof fn mode_packets_are_read(packet: Seq<u8>)
    requires
        packet.len() >= 11,
        packet[0] == 4,
        packet[1] == 0,
        packet[2] == 4,
        packet[3] == 0,
        packet[4] == 9,
        packet[5] == 0,
        packet[6] == 13,
    ensures
        parsed(packet) matches Some(PacketView::Mode(mode)) && {
            &&& mode == Some(Mode::Off) <==> packet[7] == 1
            &&& mode == Some(Mode::Anc) <==> packet[7] == 2
            &&& mode == Some(Mode::Transparency) <==> packet[7] == 3
            &&& mode == Some(Mode::Adaptive) <==> packet[7] == 4
        },
{
}

/// A request for a mode differs from that for another one in one byte only, which
/// is the number of the mode.
pub proof fn mode_requests_are_exact(mode: Mode)
    ensures
        mode_request(mode) == seq![4u8, 0, 4, 0, 9, 0, 13].push(
            match mode {
                Mode::Off => 1,
                Mode::Anc => 2,
                Mode::Transparency => 3,
                Mode::Adaptive => 4,
            },
        ) + seq![0u8, 0, 0],
{
}

/// What an entry of a battery report says: up to a hundred percent, and 1 where it
/// is charging or 2 where it is not. Anything else says nothing.
pub open spec fn reports(cell: Cell, percent: u8, state: u8) -> bool {
    if percent <= 100 && 1 <= state <= 2 {
        cell.percent == Some(percent) && cell.charging == Some(state == 1)
    } else {
        cell.percent is None && cell.charging is None
    }
}

/// The bytes of a battery report of `count` entries.
pub open spec fn battery_report(packet: Seq<u8>, count: int) -> bool {
    &&& packet.len() >= 7 + 5 * count
    &&& packet.len() >= 7
    &&& packet[0] == 4
    &&& packet[1] == 0
    &&& packet[2] == 4
    &&& packet[3] == 0
    &&& packet[4] == 4
    &&& packet[5] == 0
    &&& packet[6] == count
}

proof fn last_entry(entries: Seq<u8>, count: nat, id: u8, i: int)
    requires
        0 <= i < count,
        entries[5 * i] == id,
        forall|j: int| i < j < count ==> #[trigger] entries[5 * j] != id,
    ensures
        reports(component(entries, count, id), entries[5 * i + 2], entries[5 * i + 3]),
    decreases count,
{
    if i < count - 1 {
        assert(entries[5 * (count - 1)] != id);
        last_entry(entries, (count - 1) as nat, id, i);
    }
}

proof fn no_entry(entries: Seq<u8>, count: nat, id: u8)
    requires
        forall|j: int| 0 <= j < count ==> #[trigger] entries[5 * j] != id,
    ensures
        component(entries, count, id) == (Cell { percent: None, charging: None }),
    decreases count,
{
    if count > 0 {
        assert(entries[5 * (count - 1)] != id);
        no_entry(entries, (count - 1) as nat, id);
    }
}

/// In a battery report the last entry of a component decides: entries of the kind
/// 4 are of the left bud, 2 of the right one, and 8 of the case.
pub proof fn battery_entries_are_read(packet: Seq<u8>, count: int, i: int)
    requires
        battery_report(packet, count),
        0 <= i < count,
        forall|j: int| i < j < count ==> #[trigger] packet[7 + 5 * j] != packet[7 + 5 * i],
    ensures
        parsed(packet) matches Some(PacketView::Batteries { battery, .. }) && {
            let (id, percent, state) = (
                packet[7 + 5 * i],
                packet[9 + 5 * i],
                packet[10 + 5 * i],
            );
            &&& id == 4 ==> reports(battery.left, percent, state)
            &&& id == 2 ==> reports(battery.right, percent, state)
            &&& id == 8 ==> reports(battery.case, percent, state)
        },
{
    let entries = packet.skip(7);
    let id = packet[7 + 5 * i];
    assert forall|j: int| i < j < count implies #[trigger] entries[5 * j] != id by {
        assert(entries[5 * j] == packet[7 + 5 * j]);
    }
    assert(entries[5 * i] == id);
    last_entry(entries, count as nat, id, i);
    assert(entries[5 * i + 2] == packet[9 + 5 * i]);
    assert(entries[5 * i + 3] == packet[10 + 5 * i]);
}

/// Of a component without an entry a battery report says nothing.
pub proof fn missing_entries_say_nothing(packet: Seq<u8>, count: int, id: u8)
    requires
        battery_report(packet, count),
        forall|j: int| 0 <= j < count ==> #[trigger] packet[7 + 5 * j] != id,
    ensures
        parsed(packet) matches Some(PacketView::Batteries { battery, .. }) && {
            let nothing = Cell { percent: None, charging: None };
            &&& id == 4 ==> battery.left == nothing
            &&& id == 2 ==> battery.right == nothing
            &&& id == 8 ==> battery.case == nothing
        },
{
    let entries = packet.skip(7);
    assert forall|j: int| 0 <= j < count implies #[trigger] entries[5 * j] != id by {
        assert(entries[5 * j] == packet[7 + 5 * j]);
    }
    no_entry(entries, count as nat, id);
}

proof fn first_bud(entries: Seq<u8>, count: nat, i: int)
    requires
        0 <= i < count,
        entries[5 * i] == 4 || entries[5 * i] == 2,
        forall|j: int| 0 <= j < i ==> #[trigger] entries[5 * j] != 4 && entries[5 * j] != 2,
    ensures
        primary(entries, count) == Some(entries[5 * i] == 4),
    decreases count,
{
    if i < count - 1 {
        first_bud(entries, (count - 1) as nat, i);
    } else {
        no_bud(entries, (count - 1) as nat);
    }
}

proof fn no_bud(entries: Seq<u8>, count: nat)
    requires
        forall|j: int| 0 <= j < count ==> #[trigger] entries[5 * j] != 4 && entries[5 * j] != 2,
    ensures
        primary(entries, count) is None,
    decreases count,
{
    if count > 0 {
        assert(entries[5 * (count - 1)] != 4);
        no_bud(entries, (count - 1) as nat);
    }
}

/// The first bud of a battery report is the primary one.
pub proof fn the_first_bud_is_the_primary_one(packet: Seq<u8>, count: int, i: int)
    requires
        battery_report(packet, count),
        0 <= i < count,
        packet[7 + 5 * i] == 4 || packet[7 + 5 * i] == 2,
        forall|j: int|
            0 <= j < i ==> #[trigger] packet[7 + 5 * j] != 4 && packet[7 + 5 * j] != 2,
    ensures
        parsed(packet) matches Some(PacketView::Batteries { primary_left, .. }) && primary_left
            == Some(packet[7 + 5 * i] == 4),
{
    let entries = packet.skip(7);
    assert forall|j: int| 0 <= j < i implies #[trigger] entries[5 * j] != 4 && entries[5 * j]
        != 2 by {
        assert(entries[5 * j] == packet[7 + 5 * j]);
    }
    assert(entries[5 * i] == packet[7 + 5 * i]);
    first_bud(entries, count as nat, i);
}

/// A battery report without a bud does not tell which one is the primary one.
pub proof fn a_report_without_buds_has_no_primary_one(packet: Seq<u8>, count: int)
    requires
        battery_report(packet, count),
        forall|j: int|
            0 <= j < count ==> #[trigger] packet[7 + 5 * j] != 4 && packet[7 + 5 * j] != 2,
    ensures
        parsed(packet) matches Some(PacketView::Batteries { primary_left: None, .. }),
{
    let entries = packet.skip(7);
    assert forall|j: int| 0 <= j < count implies #[trigger] entries[5 * j] != 4 && entries[5 * j]
        != 2 by {
        assert(entries[5 * j] == packet[7 + 5 * j]);
    }
    no_bud(entries, count as nat);
}

/// How records are written one after the other.
pub open spec fn written_records(records: Seq<KeyRecord>) -> Seq<u8>
    decreases records.len(),
{
    if records.len() == 0 {
        Seq::empty()
    } else {
        let bytes = records[0].bytes;
        seq![records[0].kind, 0u8, (bytes.len() % 256) as u8, (bytes.len() / 256) as u8] + bytes
            + written_records(records.skip(1))
    }
}

/// A packet of keys that holds these records.
pub open spec fn key_packet(records: Seq<KeyRecord>) -> Seq<u8> {
    seq![4u8, 0, 4, 0, 0x31, 0, records.len() as u8] + written_records(records)
}

proof fn records_are_read(records: Seq<KeyRecord>)
    requires
        forall|i: int| 0 <= i < records.len() ==> #[trigger] records[i].bytes.len() < 65536,
    ensures
        key_records(written_records(records), records.len()) == Some(records),
    decreases records.len(),
{
    if records.len() > 0 {
        let rest = records.skip(1);
        let bytes = records[0].bytes;
        let all = written_records(records);
        let end = 4 + bytes.len();
        assert forall|i: int| 0 <= i < rest.len() implies #[trigger] rest[i].bytes.len() < 65536 by {
            assert(rest[i] == records[i + 1]);
        }
        records_are_read(rest);
        assert(crate::protocol::announced(all) == bytes.len());
        assert(all.skip(end as int) =~= written_records(rest));
        assert(all.subrange(4, end as int) =~= bytes);
        assert(all[0] == records[0].kind);
        assert(seq![KeyRecord { kind: all[0], bytes }] + rest =~= records);
    } else {
        assert(records =~= Seq::empty());
    }
}

proof fn the_only_key_is_found(records: Seq<KeyRecord>, kind: u8, i: int)
    requires
        0 <= i < records.len(),
        records[i].kind == kind,
        forall|j: int| i < j < records.len() ==> #[trigger] records[j].kind != kind,
    ensures
        key_of(records, kind) == Some(records[i].bytes),
    decreases records.len(),
{
    assert(records.last() == records[records.len() - 1]);
    if i < records.len() - 1 {
        let before = records.drop_last();
        assert forall|j: int| i < j < before.len() implies #[trigger] before[j].kind != kind by {
            assert(before[j] == records[j]);
        }
        the_only_key_is_found(before, kind, i);
    }
}

proof fn no_key_is_found(records: Seq<KeyRecord>, kind: u8)
    requires
        forall|j: int| 0 <= j < records.len() ==> #[trigger] records[j].kind != kind,
    ensures
        key_of(records, kind) is None,
    decreases records.len(),
{
    if records.len() > 0 {
        assert(records.last() == records[records.len() - 1]);
        let before = records.drop_last();
        assert forall|j: int| 0 <= j < before.len() implies #[trigger] before[j].kind != kind by {
            assert(before[j] == records[j]);
        }
        no_key_is_found(before, kind);
    }
}

/// A packet of keys gives back what was written into it: the record of the kind 1
/// is the identity key, that of the kind 4 the encryption key, and others are passed
/// over. A key that is not sixteen bytes long, is all zero or comes twice spoils the
/// whole packet.
pub proof fn written_keys_are_read(records: Seq<KeyRecord>)
    requires
        records.len() < 256,
        forall|i: int| 0 <= i < records.len() ==> #[trigger] records[i].bytes.len() < 65536,
    ensures
        parsed(key_packet(records)) is None <==> {
            ||| exists|i: int|
                {
                    &&& 0 <= i < records.len()
                    &&& #[trigger] records[i].kind == 1 || records[i].kind == 4
                    &&& records[i].bytes.len() != 16 || forall|k: int|
                        0 <= k < 16 ==> records[i].bytes[k] == 0
                }
            ||| exists|i: int, j: int|
                {
                    &&& 0 <= i < j < records.len()
                    &&& #[trigger] records[i].kind == #[trigger] records[j].kind
                    &&& records[i].kind == 1 || records[i].kind == 4
                }
        },
        parsed(key_packet(records)) matches Some(packet) ==> (packet matches PacketView::Keys(keys)
            && {
            &&& forall|i: int|
                0 <= i < records.len() && #[trigger] records[i].kind == 1 ==> keys.irk == Some(
                    records[i].bytes,
                )
            &&& forall|i: int|
                0 <= i < records.len() && #[trigger] records[i].kind == 4 ==> keys.enc == Some(
                    records[i].bytes,
                )
            &&& (forall|i: int| 0 <= i < records.len() ==> #[trigger] records[i].kind != 1)
                ==> keys.irk is None
            &&& (forall|i: int| 0 <= i < records.len() ==> #[trigger] records[i].kind != 4)
                ==> keys.enc is None
        }),
{
    let packet = key_packet(records);
    records_are_read(records);
    assert(packet.skip(7) =~= written_records(records));
    assert(packet[6] == records.len());
    if acceptable(records) {
        assert forall|i: int| 0 <= i < records.len() && is_key(#[trigger] records[i].kind) implies {
            &&& records[i].bytes.len() == 16
            &&& !(forall|k: int| 0 <= k < 16 ==> records[i].bytes[k] == 0)
            &&& key_of(records, records[i].kind) == Some(records[i].bytes)
        } by {
            assert(usable_key(records[i].bytes));
            assert(!all_zero(records[i].bytes));
            assert forall|j: int| i < j < records.len() implies #[trigger] records[j].kind
                != records[i].kind by {
                assert(records[i].kind != records[j].kind);
            }
            the_only_key_is_found(records, records[i].kind, i);
        }
        if forall|i: int| 0 <= i < records.len() ==> #[trigger] records[i].kind != 1 {
            no_key_is_found(records, 1);
        }
        if forall|i: int| 0 <= i < records.len() ==> #[trigger] records[i].kind != 4 {
            no_key_is_found(records, 4);
        }
    } else if forall|i: int|
        0 <= i < records.len() && is_key(#[trigger] records[i].kind) ==> usable_key(
            records[i].bytes,
        ) {
    } else {
        let i = choose|i: int|
            0 <= i < records.len() && is_key(#[trigger] records[i].kind) && !usable_key(
                records[i].bytes,
            );
        assert(records[i].kind == 1 || records[i].kind == 4);
    }
}

/// The bytes that open a channel, ask for notifications and ask for the keys.
pub proof fn opening_bytes_are_exact()
    ensures
        crate::protocol::HANDSHAKE@ == seq![0u8, 0, 4, 0, 1, 0, 2, 0, 0, 0, 0, 0, 0, 0, 0, 0],
        crate::protocol::NOTIFICATIONS@ == seq![4u8, 0, 4, 0, 15, 0, 255, 255, 255, 255],
        crate::protocol::KEYS_REQUEST@ == seq![4u8, 0, 4, 0, 48, 0, 5, 0],
{
    assert(crate::protocol::HANDSHAKE@ =~= seq![0u8, 0, 4, 0, 1, 0, 2, 0, 0, 0, 0, 0, 0, 0, 0, 0]);
    assert(crate::protocol::NOTIFICATIONS@ =~= seq![4u8, 0, 4, 0, 15, 0, 255, 255, 255, 255]);
    assert(crate::protocol::KEYS_REQUEST@ =~= seq![4u8, 0, 4, 0, 48, 0, 5, 0]);
}

/// Only packets that begin with 4, 0, 4, 0, their kind and 0 are understood, and
/// only of four kinds, each of which says one thing.
pub proof fn only_known_packets_are_understood(packet: Seq<u8>)
    ensures
        parsed(packet) matches Some(said) ==> {
            &&& packet.len() >= 7
            &&& packet[0] == 4 && packet[1] == 0 && packet[2] == 4 && packet[3] == 0
            &&& packet[5] == 0
            &&& said is Ear <==> packet[4] == 6
            &&& said is Mode <==> packet[4] == 9
            &&& said is Batteries <==> packet[4] == 4
            &&& said is Keys <==> packet[4] == 49
            &&& said is Mode ==> packet[6] == 13
        },
{
}

/// An address belongs to a device if its first byte is from 64 to 127 and its last
/// three bytes are the last three of the block that its first three bytes, after
/// thirteen zeros, are encrypted to under the identity key read backwards.
pub proof fn identities_are_resolved_by_their_key(address: Seq<u8>, irk: Seq<u8>)
    requires
        address.len() == 6,
        irk.len() == 16,
    ensures
        crate::protocol::resolves(address, irk) <==> {
            let key = Seq::new(16, |i: int| irk[15 - i]);
            let block = crate::cipher::encrypted(
                key,
                seq![0u8, 0, 0, 0, 0, 0, 0, 0, 0, 0, 0, 0, 0] + address.take(3),
            );
            &&& 64 <= address[0] < 128
            &&& block[13] == address[3] && block[14] == address[4] && block[15] == address[5]
        },
{
    let key = Seq::new(16, |i: int| irk[15 - i]);
    let input = seq![0u8, 0, 0, 0, 0, 0, 0, 0, 0, 0, 0, 0, 0] + address.take(3);
    assert(irk.reverse() =~= key);
    assert(crate::protocol::random_block(address) =~= input);
    let first = address[0];
    assert(first & 0xc0 == 0x40 <==> 64 <= first < 128) by (bit_vector);
}

} // verus!
