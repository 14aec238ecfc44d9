//! Packets of the control channel and proximity advertisements.
use crate::cipher;
use crate::model::{Battery, Cell, Mode};
use vstd::prelude::*;

verus! {

broadcast use vstd::array::group_array_axioms;

/// Opens a control channel.
pub const HANDSHAKE: [u8; 16] = [0, 0, 4, 0, 1, 0, 2, 0, 0, 0, 0, 0, 0, 0, 0, 0];

/// Asks for notifications.
pub const NOTIFICATIONS: [u8; 10] = [4, 0, 4, 0, 0x0f, 0, 0xff, 0xff, 0xff, 0xff];

/// Asks for the proximity keys.
pub const KEYS_REQUEST: [u8; 8] = [4, 0, 4, 0, 0x30, 0, 5, 0];

/// The bytes that ask the device for a mode.
pub open spec fn mode_request(mode: Mode) -> Seq<u8> {
    seq![4u8, 0, 4, 0, 9, 0, 0x0d, mode.code(), 0, 0, 0]
}

/// The packet that asks the device for a mode.
pub fn mode_packet(mode: Mode) -> (r: [u8; 11])
    ensures
        r@ == mode_request(mode),
{
    let r = [4, 0, 4, 0, 9, 0, 0x0d, mode.value(), 0, 0, 0];
    assert(r@ =~= mode_request(mode));
    r
}

/// Proximity keys that arrived in one packet. They have no `Debug`, so that they
/// do not end up in a log.
pub struct ReceivedKeys {
    pub irk: Option<[u8; 16]>,
    pub enc: Option<[u8; 16]>,
}

#[verifier::ext_equal]
pub struct ReceivedKeysView {
    pub irk: Option<Seq<u8>>,
    pub enc: Option<Seq<u8>>,
}

/// The bytes of a key that may be missing.
pub open spec fn key_bytes(key: Option<[u8; 16]>) -> Option<Seq<u8>> {
    match key {
        Some(bytes) => Some(bytes@),
        None => None,
    }
}

impl View for ReceivedKeys {
    type V = ReceivedKeysView;

    open spec fn view(&self) -> ReceivedKeysView {
        ReceivedKeysView { irk: key_bytes(self.irk), enc: key_bytes(self.enc) }
    }
}

impl Clone for ReceivedKeys {
    fn clone(&self) -> (r: Self)
        ensures
            r == *self,
    {
        ReceivedKeys { irk: self.irk, enc: self.enc }
    }
}

impl Default for ReceivedKeys {
    fn default() -> (r: Self)
        ensures
            r.irk is None,
            r.enc is None,
    {
        ReceivedKeys { irk: None, enc: None }
    }
}

/// What a packet of the control channel says.
pub enum Packet {
    Ear([Option<bool>; 2]),
    Batteries { battery: Battery, primary_left: Option<bool> },
    Mode(Option<Mode>),
    Keys(ReceivedKeys),
}

#[verifier::ext_equal]
pub enum PacketView {
    Ear(crate::model::Ears),
    Batteries { battery: Battery, primary_left: Option<bool> },
    Mode(Option<Mode>),
    Keys(ReceivedKeysView),
}

impl View for Packet {
    type V = PacketView;

    open spec fn view(&self) -> PacketView {
        match self {
            Packet::Ear(ears) => PacketView::Ear(crate::model::ears_of(*ears)),
            Packet::Batteries { battery, primary_left } => PacketView::Batteries {
                battery: *battery,
                primary_left: *primary_left,
            },
            Packet::Mode(mode) => PacketView::Mode(*mode),
            Packet::Keys(keys) => PacketView::Keys(keys@),
        }
    }
}

impl DeepView for Packet {
    type V = PacketView;

    open spec fn deep_view(&self) -> PacketView {
        self@
    }
}

/// What a status byte says of one bud.
pub open spec fn ear_status(value: u8) -> Option<bool> {
    if value == 0 {
        Some(true)
    } else if value == 1 || value == 2 {
        Some(false)
    } else {
        None
    }
}

/// What a status byte says of one bud: in the ear, out of it, or nothing.
pub fn ear(value: u8) -> (r: Option<bool>)
    ensures
        r == ear_status(value),
{
    match value {
        0 => Some(true),
        1 | 2 => Some(false),
        _ => None,
    }
}

/// The charge that a battery entry reports.
pub open spec fn entry_cell(percent: u8, state: u8) -> Cell {
    if percent <= 100 && (state == 1 || state == 2) {
        Cell { percent: Some(percent), charging: Some(state == 1) }
    } else {
        crate::model::unknown_cell()
    }
}

/// The charge of the component `id` among the first `count` entries of five
/// bytes: its last entry decides.
pub open spec fn component(entries: Seq<u8>, count: nat, id: u8) -> Cell
    decreases count,
{
    if count == 0 {
        crate::model::unknown_cell()
    } else {
        let at = 5 * (count - 1);
        if entries[at] == id {
            entry_cell(entries[at + 2], entries[at + 3])
        } else {
            component(entries, (count - 1) as nat, id)
        }
    }
}

/// Which bud an entry is of: left, right, or neither.
pub open spec fn entry_side(id: u8) -> Option<bool> {
    if id == 4 {
        Some(true)
    } else if id == 2 {
        Some(false)
    } else {
        None
    }
}

/// Whether the first earbud among the first `count` entries is the left one.
pub open spec fn primary(entries: Seq<u8>, count: nat) -> Option<bool>
    decreases count,
{
    if count == 0 {
        None
    } else {
        let earlier = primary(entries, (count - 1) as nat);
        if earlier is Some {
            earlier
        } else {
            entry_side(entries[5 * (count - 1)])
        }
    }
}

/// One record of a packet of keys.
#[verifier::ext_equal]
pub struct KeyRecord {
    pub kind: u8,
    pub bytes: Seq<u8>,
}

/// The number of bytes that a record's header announces.
pub open spec fn announced(bytes: Seq<u8>) -> int {
    bytes[2] + 256 * bytes[3]
}

/// The `count` records that stand at the front of `bytes`: a kind, an unused
/// byte, a length of two bytes with the low one first, and that many bytes.
pub open spec fn key_records(bytes: Seq<u8>, count: nat) -> Option<Seq<KeyRecord>>
    decreases count,
{
    if count == 0 {
        Some(Seq::empty())
    } else if bytes.len() < 4 || bytes.len() < 4 + announced(bytes) {
        None
    } else {
        let end = 4 + announced(bytes);
        match key_records(bytes.skip(end), (count - 1) as nat) {
            Some(rest) => Some(
                seq![KeyRecord { kind: bytes[0], bytes: bytes.subrange(4, end) }] + rest,
            ),
            None => None,
        }
    }
}

/// The kinds of records that hold keys: the identity and the encryption key.
pub open spec fn is_key(kind: u8) -> bool {
    kind == 1 || kind == 4
}

pub open spec fn all_zero(bytes: Seq<u8>) -> bool {
    forall|i: int| 0 <= i < bytes.len() ==> bytes[i] == 0
}

/// Sixteen bytes that are not all zero.
pub open spec fn usable_key(bytes: Seq<u8>) -> bool {
    bytes.len() == 16 && !all_zero(bytes)
}

/// Every key is usable and none comes twice.
pub open spec fn acceptable(records: Seq<KeyRecord>) -> bool {
    &&& forall|i: int|
        0 <= i < records.len() && is_key(#[trigger] records[i].kind) ==> usable_key(records[i].bytes)
    &&& forall|i: int, j: int|
        0 <= i < j < records.len() && is_key(records[i].kind) ==> #[trigger] records[i].kind
            != #[trigger] records[j].kind
}

/// The key of a kind among the records.
pub open spec fn key_of(records: Seq<KeyRecord>, kind: u8) -> Option<Seq<u8>>
    decreases records.len(),
{
    if records.len() == 0 {
        None
    } else if records.last().kind == kind {
        Some(records.last().bytes)
    } else {
        key_of(records.drop_last(), kind)
    }
}

/// The keys of `count` records at the front of `bytes`, if all of them are
/// there and acceptable.
pub open spec fn received_keys(bytes: Seq<u8>, count: nat) -> Option<ReceivedKeysView> {
    match key_records(bytes, count) {
        Some(records) => if acceptable(records) {
            Some(ReceivedKeysView { irk: key_of(records, 1), enc: key_of(records, 4) })
        } else {
            None
        },
        None => None,
    }
}

/// Every packet starts with these bytes, up to its kind at position 4.
pub open spec fn framed(packet: Seq<u8>) -> bool {
    &&& packet.len() >= 6
    &&& packet[0] == 4
    &&& packet[1] == 0
    &&& packet[2] == 4
    &&& packet[3] == 0
    &&& packet[5] == 0
}

/// What a packet says, if it says anything that is understood.
pub open spec fn parsed(packet: Seq<u8>) -> Option<PacketView> {
    if !framed(packet) {
        None
    } else if packet[4] == 6 && packet.len() >= 8 {
        Some(PacketView::Ear((ear_status(packet[6]), ear_status(packet[7]))))
    } else if packet[4] == 9 && packet.len() >= 11 && packet[6] == 0x0d {
        Some(PacketView::Mode(Mode::decoded(packet[7])))
    } else if packet[4] == 4 && packet.len() >= 7 && packet.len() >= 7 + 5 * packet[6] {
        let entries = packet.skip(7);
        let count = packet[6] as nat;
        Some(
            PacketView::Batteries {
                battery: Battery {
                    left: component(entries, count, 4),
                    right: component(entries, count, 2),
                    case: component(entries, count, 8),
                },
                primary_left: primary(entries, count),
            },
        )
    } else if packet[4] == 0x31 && packet.len() >= 7 {
        match received_keys(packet.skip(7), packet[6] as nat) {
            Some(keys) => Some(PacketView::Keys(keys)),
            None => None,
        }
    } else {
        None
    }
}

/// What a packet of the control channel says. Short, malformed and unknown
/// packets say nothing.
pub fn parse(packet: &[u8]) -> (r: Option<Packet>)
    ensures
        r.deep_view() == parsed(packet@),
{
    if packet.len() < 6 || packet[0] != 4 || packet[1] != 0 || packet[2] != 4 || packet[3] != 0
        || packet[5] != 0 {
        return None;
    }
    let kind: u8 = packet[4];
    if kind == 6 && packet.len() >= 8 {
        Some(Packet::Ear([ear(packet[6]), ear(packet[7])]))
    } else if kind == 9 && packet.len() >= 11 && packet[6] == 0x0d {
        Some(Packet::Mode(Mode::from_value(packet[7])))
    } else if kind == 4 && packet.len() >= 7 && packet.len() >= 7 + 5 * packet[6] as usize {
        Some(batteries(packet))
    } else if kind == 0x31 && packet.len() >= 7 {
        match keys(packet) {
            Some(keys) => Some(Packet::Keys(keys)),
            None => None,
        }
    } else {
        None
    }
}

/// The battery entries of a packet that holds all it announces.
fn batteries(packet: &[u8]) -> (r: Packet)
    requires
        packet@.len() >= 7,
        packet@.len() >= 7 + 5 * packet@[6],
    ensures
        r@ == (PacketView::Batteries {
            battery: Battery {
                left: component(packet@.skip(7), packet@[6] as nat, 4),
                right: component(packet@.skip(7), packet@[6] as nat, 2),
                case: component(packet@.skip(7), packet@[6] as nat, 8),
            },
            primary_left: primary(packet@.skip(7), packet@[6] as nat),
        }),
{
    let count: usize = packet[6] as usize;
    let mut battery = Battery::default();
    let mut primary_left: Option<bool> = None;
    let ghost entries = packet@.skip(7);
    for i in 0..count
        invariant
            count == packet@[6],
            packet.len() >= 7 + 5 * count,
            entries == packet@.skip(7),
            battery.left == component(entries, i as nat, 4),
            battery.right == component(entries, i as nat, 2),
            battery.case == component(entries, i as nat, 8),
            primary_left == primary(entries, i as nat),
    {
        let at: usize = 7 + 5 * i;
        let id: u8 = packet[at];
        let percent: u8 = packet[at + 2];
        let state: u8 = packet[at + 3];
        assert(entries[5 * i as int] == id);
        assert(entries[5 * i + 2] == percent);
        assert(entries[5 * i + 3] == state);
        let cell = if percent <= 100 && (state == 1 || state == 2) {
            Cell { percent: Some(percent), charging: Some(state == 1) }
        } else {
            Cell::default()
        };
        if primary_left.is_none() {
            primary_left = if id == 4 {
                Some(true)
            } else if id == 2 {
                Some(false)
            } else {
                None
            };
        }
        if id == 4 {
            battery.left = cell;
        } else if id == 2 {
            battery.right = cell;
        } else if id == 8 {
            battery.case = cell;
        }
    }
    Packet::Batteries { battery, primary_left }
}

/// The sixteen bytes from `at` on.
fn sixteen(bytes: &[u8], at: usize) -> (r: [u8; 16])
    requires
        at + 16 <= bytes@.len(),
    ensures
        r@ == bytes@.subrange(at as int, at + 16),
{
    let mut key: [u8; 16] = [0; 16];
    for i in 0..16usize
        invariant
            at + 16 <= bytes.len(),
            forall|j: int| 0 <= j < i ==> key@[j] == bytes@[at + j],
    {
        key[i] = bytes[at + i];
    }
    assert(key@ =~= bytes@.subrange(at as int, at + 16));
    key
}

/// Whether a key is all zero.
pub fn is_zero(key: &[u8; 16]) -> (r: bool)
    ensures
        r == all_zero(key@),
{
    for i in 0..16usize
        invariant
            forall|j: int| 0 <= j < i ==> key@[j] == 0,
    {
        if key[i] != 0 {
            return false;
        }
    }
    true
}

/// A record that is refused makes every list with it unacceptable.
proof fn refused(done: Seq<KeyRecord>, record: KeyRecord, rest: Seq<KeyRecord>)
    requires
        is_key(record.kind),
        !usable_key(record.bytes) || exists|i: int|
            0 <= i < done.len() && #[trigger] done[i].kind == record.kind,
    ensures
        !acceptable(done + (seq![record] + rest)),
{
    let all = done + (seq![record] + rest);
    assert(all[done.len() as int] == record);
    if usable_key(record.bytes) {
        let i = choose|i: int| 0 <= i < done.len() && #[trigger] done[i].kind == record.kind;
        assert(all[i] == done[i]);
    }
}

/// A kind has a key exactly when a record has that kind.
proof fn key_is_found(records: Seq<KeyRecord>, kind: u8)
    ensures
        key_of(records, kind) is Some <==> exists|i: int|
            0 <= i < records.len() && #[trigger] records[i].kind == kind,
    decreases records.len(),
{
    if records.len() > 0 {
        key_is_found(records.drop_last(), kind);
        if records.last().kind == kind {
            assert(records[records.len() - 1].kind == kind);
        } else if key_of(records, kind) is Some {
            let i = choose|i: int|
                0 <= i < records.drop_last().len() && #[trigger] records.drop_last()[i].kind == kind;
            assert(records[i].kind == kind);
        } else if exists|i: int| 0 <= i < records.len() && #[trigger] records[i].kind == kind {
            let i = choose|i: int| 0 <= i < records.len() && #[trigger] records[i].kind == kind;
            assert(records.drop_last()[i].kind == kind);
        }
    }
}

/// The keys of a packet of keys.
fn keys(packet: &[u8]) -> (r: Option<ReceivedKeys>)
    requires
        packet@.len() >= 7,
    ensures
        match r {
            Some(keys) => received_keys(packet@.skip(7), packet@[6] as nat) == Some(keys@),
            None => received_keys(packet@.skip(7), packet@[6] as nat) is None,
        },
{
    let count: usize = packet[6] as usize;
    let mut offset: usize = 7;
    let mut keys = ReceivedKeys::default();
    let ghost mut done: Seq<KeyRecord> = Seq::empty();
    let ghost all = key_records(packet@.skip(7), count as nat);
    assert(all matches Some(records) ==> done + records =~= records);
    for i in 0..count
        invariant
            count == packet@[6],
            all == key_records(packet@.skip(7), count as nat),
            7 <= offset <= packet.len(),
            acceptable(done),
            key_bytes(keys.irk) == key_of(done, 1),
            key_bytes(keys.enc) == key_of(done, 4),
            key_records(packet@.skip(offset as int), (count - i) as nat) matches Some(rest)
                ==> all == Some(done + rest),
            key_records(packet@.skip(offset as int), (count - i) as nat) is None ==> all is None,
    {
        let ghost here = packet@.skip(offset as int);
        if packet.len() - offset < 4 {
            return None;
        }
        let kind: u8 = packet[offset];
        let len: usize = packet[offset + 2] as usize + 256 * packet[offset + 3] as usize;
        assert(here[0] == kind);
        assert(announced(here) == len);
        if packet.len() - offset - 4 < len {
            return None;
        }
        let ghost record = KeyRecord { kind, bytes: here.subrange(4, 4 + len) };
        let ghost rest = key_records(here.skip(4 + len), (count - i - 1) as nat);
        assert(here.skip(4 + len) =~= packet@.skip(offset + 4 + len));
        proof {
            if rest is Some {
                assert(all == Some(done + (seq![record] + rest->0)));
                assert(done + (seq![record] + rest->0) =~= done.push(record) + rest->0);
            }
            key_is_found(done, kind);
        }
        if kind == 1 || kind == 4 {
            if len != 16 {
                proof {
                    if rest is Some {
                        refused(done, record, rest->0);
                    }
                }
                return None;
            }
            let key = sixteen(packet, offset + 4);
            assert(key@ =~= record.bytes);
            let taken = if kind == 1 {
                keys.irk.is_some()
            } else {
                keys.enc.is_some()
            };
            if is_zero(&key) || taken {
                proof {
                    if rest is Some {
                        refused(done, record, rest->0);
                    }
                }
                return None;
            }
            if kind == 1 {
                keys.irk = Some(key);
            } else {
                keys.enc = Some(key);
            }
        }
        proof {
            assert(done.push(record).drop_last() =~= done);
            assert forall|a: int, b: int|
                0 <= a < b < done.push(record).len() && is_key(
                    done.push(record)[a].kind,
                ) implies #[trigger] done.push(record)[a].kind != #[trigger] done.push(
                record,
            )[b].kind by {
                if b == done.len() {
                    assert(done.push(record)[a] == done[a]);
                }
            }
            done = done.push(record);
        }
        offset = offset + 4 + len;
    }
    assert(all == Some(done)) by {
        assert(done + Seq::<KeyRecord>::empty() =~= done);
    }
    Some(keys)
}

/// The two most significant bits mark a resolvable private address.
pub open spec fn resolvable(address: Seq<u8>) -> bool {
    address[0] & 0xc0 == 0x40
}

/// The block that is encrypted to resolve an address: zeros, then its random
/// part.
pub open spec fn random_block(address: Seq<u8>) -> Seq<u8> {
    Seq::new(16, |i: int| if i < 13 { 0u8 } else { address[i - 13] })
}

/// An address matches an encrypted block if it is resolvable and its last three
/// bytes are those of the block.
pub open spec fn hash_agrees(address: Seq<u8>, block: Seq<u8>) -> bool {
    resolvable(address) && block[13] == address[3] && block[14] == address[4] && block[15]
        == address[5]
}

/// Whether `address`, in the order in which it is written, matches the block that
/// its random part was encrypted to.
pub fn matches_hash(address: [u8; 6], block: &[u8; 16]) -> (r: bool)
    ensures
        r == hash_agrees(address@, block@),
{
    address[0] & 0xc0 == 0x40 && block[13] == address[3] && block[14] == address[4] && block[15]
        == address[5]
}

/// A private address, in the order in which it is written, of the device with
/// this identity key. The key is used in reverse order.
pub open spec fn resolves(address: Seq<u8>, irk: Seq<u8>) -> bool {
    hash_agrees(address, cipher::encrypted(irk.reverse(), random_block(address)))
}

/// Whether `address`, in the order in which it is written, is a private address
/// of the device with this identity key.
pub fn resolve_rpa(address: [u8; 6], irk: &[u8; 16]) -> (r: bool)
    ensures
        r == resolves(address@, irk@),
{
    if address[0] & 0xc0 != 0x40 {
        return false;
    }
    let mut key: [u8; 16] = [0; 16];
    for i in 0..16usize
        invariant
            forall|j: int| 0 <= j < i ==> key@[j] == irk@[15 - j],
    {
        key[i] = irk[15 - i];
    }
    assert(key@ =~= irk@.reverse());
    let input: [u8; 16] = [0, 0, 0, 0, 0, 0, 0, 0, 0, 0, 0, 0, 0, address[0], address[1], address[2]];
    assert(input@ =~= random_block(address@));
    let block = cipher::encrypt(&key, &input);
    matches_hash(address, &block)
}

/// What an advertisement says.
pub struct Advertisement {
    pub ears: [Option<bool>; 2],
    pub battery: Battery,
}

#[verifier::ext_equal]
pub struct AdvertisementView {
    pub ears: crate::model::Ears,
    pub battery: Battery,
}

impl View for Advertisement {
    type V = AdvertisementView;

    open spec fn view(&self) -> AdvertisementView {
        AdvertisementView { ears: crate::model::ears_of(self.ears), battery: self.battery }
    }
}

impl DeepView for Advertisement {
    type V = AdvertisementView;

    open spec fn deep_view(&self) -> AdvertisementView {
        self@
    }
}

/// The charge in one byte of an advertisement: a percentage and, in the top bit,
/// whether it is charging.
pub open spec fn byte_cell(value: u8) -> Cell {
    if value == 0xff || value & 0x7f > 100 {
        crate::model::unknown_cell()
    } else {
        Cell { percent: Some(value & 0x7f), charging: Some(value & 0x80 != 0) }
    }
}

/// The charge in one byte of an advertisement.
pub fn battery_byte(value: u8) -> (r: Cell)
    ensures
        r == byte_cell(value),
{
    if value == 0xff || value & 0x7f > 100 {
        Cell::default()
    } else {
        Cell { percent: Some(value & 0x7f), charging: Some(value & 0x80 != 0) }
    }
}

/// The layout of a paired device's proximity frame.
pub open spec fn proximity_frame(data: Seq<u8>) -> bool {
    data.len() == 27 && data[0] == 7 && data[1] == 25 && data[2] != 0
}

/// What the status byte of a frame says of the ears. The bits of the primary bud
/// and the other one change sides with the primary bud, and again while it is in
/// the case. A bud cannot be in the ear while both are in the case.
pub open spec fn status_ears(status: u8) -> crate::model::Ears {
    let flipped = (status & 0x20 != 0) != (status & 0x40 != 0);
    let left = if flipped { status & 2 != 0 } else { status & 8 != 0 };
    let right = if flipped { status & 8 != 0 } else { status & 2 != 0 };
    if status & 4 == 0 {
        (Some(left), Some(right))
    } else if left || right {
        (None, None)
    } else {
        (Some(false), Some(false))
    }
}

/// What a frame says, given its decrypted block.
pub open spec fn advertised(data: Seq<u8>, block: Seq<u8>) -> Option<AdvertisementView> {
    if proximity_frame(data) {
        let primary_left = data[5] & 0x20 != 0;
        Some(
            AdvertisementView {
                ears: status_ears(data[5]),
                battery: Battery {
                    left: byte_cell(if primary_left { block[1] } else { block[2] }),
                    right: byte_cell(if primary_left { block[2] } else { block[1] }),
                    case: byte_cell(block[3]),
                },
            },
        )
    } else {
        None
    }
}

/// What a frame says, given its decrypted block. Only the established layout of
/// a paired device is understood.
pub fn read_advertisement(data: &[u8], block: &[u8; 16]) -> (r: Option<Advertisement>)
    ensures
        r.deep_view() == advertised(data@, block@),
{
    if data.len() != 27 || data[0] != 7 || data[1] != 25 || data[2] == 0 {
        return None;
    }
    let status: u8 = data[5];
    let primary_left = status & 0x20 != 0;
    let primary_in_case = status & 0x40 != 0;
    let flipped = primary_left != primary_in_case;
    let left = if flipped { status & 2 != 0 } else { status & 8 != 0 };
    let right = if flipped { status & 8 != 0 } else { status & 2 != 0 };
    let ears = if status & 4 != 0 {
        if left || right {
            [None, None]
        } else {
            [Some(false), Some(false)]
        }
    } else {
        [Some(left), Some(right)]
    };
    let battery = Battery {
        left: battery_byte(if primary_left { block[1] } else { block[2] }),
        right: battery_byte(if primary_left { block[2] } else { block[1] }),
        case: battery_byte(block[3]),
    };
    Some(Advertisement { ears, battery })
}

/// What an advertisement says to whoever holds the encryption key.
pub open spec fn advertised_to(data: Seq<u8>, enc: Seq<u8>) -> Option<AdvertisementView> {
    advertised(data, cipher::decrypted(enc, data.subrange(11, 27)))
}

/// What an advertisement says to whoever holds the encryption key. Frames of
/// another layout cannot authorize a connection.
pub fn advertisement(data: &[u8], enc: &[u8; 16]) -> (r: Option<Advertisement>)
    ensures
        r.deep_view() == advertised_to(data@, enc@),
{
    if data.len() != 27 {
        return None;
    }
    let sealed = sixteen(data, 11);
    let block = cipher::decrypt(enc, &sealed);
    read_advertisement(data, &block)
}

/// The number of bytes that `count` records at the front of `bytes` take.
pub open spec fn records_extent(bytes: Seq<u8>, count: nat) -> int
    decreases count,
{
    if count == 0 {
        0
    } else {
        let end = 4 + announced(bytes);
        end + records_extent(bytes.skip(end), (count - 1) as nat)
    }
}

/// The number of bytes of a packet that its content takes.
pub open spec fn extent(packet: Seq<u8>) -> int {
    if packet[4] == 6 {
        8
    } else if packet[4] == 9 {
        11
    } else if packet[4] == 4 {
        7 + 5 * packet[6]
    } else {
        7 + records_extent(packet.skip(7), packet[6] as nat)
    }
}

proof fn records_of_prefix(bytes: Seq<u8>, count: nat, n: int)
    requires
        0 <= n <= bytes.len(),
        key_records(bytes, count) is Some,
    ensures
        0 <= records_extent(bytes, count) <= bytes.len(),
        n >= records_extent(bytes, count) ==> key_records(bytes.take(n), count) == key_records(
            bytes,
            count,
        ),
        n < records_extent(bytes, count) ==> key_records(bytes.take(n), count) is None,
    decreases count,
{
    if count > 0 {
        let end = 4 + announced(bytes);
        records_of_prefix(
            bytes.skip(end),
            (count - 1) as nat,
            if n >= end { n - end } else { 0 },
        );
        if n >= end {
            assert(bytes.take(n).skip(end) =~= bytes.skip(end).take(n - end));
            assert(bytes.take(n).subrange(4, end) =~= bytes.subrange(4, end));
        } else if n >= 4 {
            assert(announced(bytes.take(n)) == announced(bytes));
        }
    }
}

proof fn entries_of_prefix(a: Seq<u8>, b: Seq<u8>, count: nat, id: u8)
    requires
        5 * count <= a.len(),
        5 * count <= b.len(),
        forall|i: int| 0 <= i < 5 * count ==> a[i] == b[i],
    ensures
        component(a, count, id) == component(b, count, id),
        primary(a, count) == primary(b, count),
    decreases count,
{
    if count > 0 {
        entries_of_prefix(a, b, (count - 1) as nat, id);
    }
}

/// A packet that is understood says nothing when its content is cut short, and the
/// same when only bytes after its content are cut off.
pub proof fn short_packets_say_nothing(packet: Seq<u8>, n: int)
    requires
        parsed(packet) is Some,
        0 <= n <= packet.len(),
    ensures
        extent(packet) <= packet.len(),
        n < extent(packet) ==> parsed(packet.take(n)) is None,
        n >= extent(packet) ==> parsed(packet.take(n)) == parsed(packet),
{
    let cut = packet.take(n);
    if packet[4] == 4 {
        if n >= extent(packet) {
            let count = packet[6] as nat;
            assert forall|i: int| 0 <= i < 5 * count implies packet.skip(7)[i] == cut.skip(7)[i] by {
            }
            entries_of_prefix(packet.skip(7), cut.skip(7), count, 4);
            entries_of_prefix(packet.skip(7), cut.skip(7), count, 2);
            entries_of_prefix(packet.skip(7), cut.skip(7), count, 8);
        }
    } else if packet[4] == 0x31 {
        records_of_prefix(packet.skip(7), packet[6] as nat, if n >= 7 { n - 7 } else { 0 });
        if n >= 7 {
            assert(cut.skip(7) =~= packet.skip(7).take(n - 7));
        }
    }
}

proof fn records_before_more(bytes: Seq<u8>, more: Seq<u8>, count: nat)
    requires
        key_records(bytes, count) is Some,
    ensures
        key_records(bytes + more, count) == key_records(bytes, count),
    decreases count,
{
    if count > 0 {
        let end = 4 + announced(bytes);
        records_before_more(bytes.skip(end), more, (count - 1) as nat);
        assert((bytes + more).skip(end) =~= bytes.skip(end) + more);
        assert((bytes + more).subrange(4, end) =~= bytes.subrange(4, end));
    }
}

/// Bytes after a packet that is understood change nothing.
pub proof fn bytes_after_a_packet_change_nothing(packet: Seq<u8>, more: Seq<u8>)
    ensures
        parsed(packet) is Some ==> parsed(packet + more) == parsed(packet),
{
    if parsed(packet) is Some {
        let longer = packet + more;
        assert(longer.skip(7) =~= packet.skip(7) + more || packet.len() < 7);
        if packet[4] == 4 {
            let count = packet[6] as nat;
            entries_of_prefix(packet.skip(7), longer.skip(7), count, 4);
            entries_of_prefix(packet.skip(7), longer.skip(7), count, 2);
            entries_of_prefix(packet.skip(7), longer.skip(7), count, 8);
        } else if packet[4] == 0x31 {
            records_before_more(packet.skip(7), more, packet[6] as nat);
        }
    }
}

proof fn component_is_valid(entries: Seq<u8>, count: nat, id: u8)
    ensures
        component(entries, count, id).valid(),
    decreases count,
{
    if count > 0 {
        component_is_valid(entries, (count - 1) as nat, id);
    }
}

/// A charge is never more than a hundred percent and never known by half,
/// whatever arrives, on the channel and in advertisements.
pub proof fn charges_are_valid(packet: Seq<u8>, data: Seq<u8>, block: Seq<u8>)
    ensures
        parsed(packet) matches Some(PacketView::Batteries { battery, .. }) ==> battery.valid(),
        advertised(data, block) matches Some(advertisement) ==> advertisement.battery.valid(),
{
    if parsed(packet) matches Some(PacketView::Batteries { .. }) {
        component_is_valid(packet.skip(7), packet[6] as nat, 4);
        component_is_valid(packet.skip(7), packet[6] as nat, 2);
        component_is_valid(packet.skip(7), packet[6] as nat, 8);
    }
}

proof fn key_is_usable(records: Seq<KeyRecord>, kind: u8)
    requires
        is_key(kind),
        forall|i: int|
            0 <= i < records.len() && is_key(#[trigger] records[i].kind) ==> usable_key(
                records[i].bytes,
            ),
    ensures
        key_of(records, kind) matches Some(key) ==> usable_key(key),
    decreases records.len(),
{
    if records.len() > 0 {
        assert(records.last() == records[records.len() - 1]);
        assert forall|i: int|
            0 <= i < records.drop_last().len() && is_key(
                #[trigger] records.drop_last()[i].kind,
            ) implies usable_key(records.drop_last()[i].bytes) by {
            assert(records[i] == records.drop_last()[i]);
        }
        key_is_usable(records.drop_last(), kind);
    }
}

/// A key that is received has sixteen bytes that are not all zero.
pub proof fn received_keys_are_usable(packet: Seq<u8>)
    ensures
        parsed(packet) matches Some(PacketView::Keys(keys)) ==> {
            &&& keys.irk matches Some(irk) ==> usable_key(irk)
            &&& keys.enc matches Some(enc) ==> usable_key(enc)
        },
{
    if parsed(packet) matches Some(PacketView::Keys(_)) {
        let records = key_records(packet.skip(7), packet[6] as nat)->0;
        key_is_usable(records, 1);
        key_is_usable(records, 4);
    }
}

/// A request for a mode is understood as a report of that mode.
pub proof fn mode_requests_name_the_mode(mode: Mode)
    ensures
        parsed(mode_request(mode)) == Some(PacketView::Mode(Some(mode))),
{
}

/// Only the status byte of a bud that is in the ear authorizes: any unknown value
/// does not.
pub proof fn unknown_status_never_authorizes(packet: Seq<u8>)
    ensures
        parsed(packet) matches Some(PacketView::Ear(ears)) ==> (crate::model::worn(ears) <==> (
        packet[6] == 0 || packet[7] == 0)),
{
}

/// A frame that says that the buds are in the case never authorizes, even where
/// it contradicts itself.
pub proof fn case_never_authorizes(data: Seq<u8>, block: Seq<u8>)
    requires
        data.len() == 27,
        data[5] & 4 != 0,
    ensures
        advertised(data, block) matches Some(advertisement) ==> !crate::model::worn(
            advertisement.ears,
        ),
{
}

/// A frame of another length, kind or layout, or one of a device that is not
/// paired, says nothing.
pub proof fn unknown_frames_say_nothing(data: Seq<u8>, block: Seq<u8>)
    requires
        data.len() != 27 || data[0] != 7 || data[1] != 25 || data[2] == 0,
    ensures
        advertised(data, block) is None,
{
}

/// Only resolvable private addresses belong to a device, and to each random part
/// there is exactly one address that may.
pub proof fn identities_are_resolved_exactly(a: Seq<u8>, b: Seq<u8>, irk: Seq<u8>)
    requires
        a.len() == 6,
        b.len() == 6,
        a.take(3) == b.take(3),
        resolves(a, irk),
    ensures
        a[0] & 0xc0 == 0x40,
        resolves(b, irk) <==> a == b,
{
    assert(forall|i: int| 0 <= i < 3 ==> a[i] == a.take(3)[i] && b[i] == b.take(3)[i]);
    assert(random_block(a) =~= random_block(b));
    if resolves(b, irk) {
        assert(a =~= b);
    }
}

} // verus!
