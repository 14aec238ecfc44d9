//! What the radio reports and what is made of it.
use crate::address;
use crate::audio::{
    aac_name, card_of, choice, plays_aac, preference, preferred, selection, unset, warning,
};
use crate::bluetooth::{
    exception_outcome, in_order, paired_among, readiness, shortfall, sorted, EndedView, EventView,
    GuardView, LinkView, SearchView, Seen, Write,
};
use crate::json::{self, JsonView};
use crate::model::PairedDeviceView;
use crate::policy::{Exception, OutcomeView};
use crate::protocol;
use crate::scanner::{Finding, ScanView, ScannerView, ScanningView, Sight};
use crate::storage::KeysView;
use crate::text;
use std::collections::HashMap;
use vstd::prelude::*;

verus! {

impl ScannerView {
    /// The device hides under this address.
    pub open spec fn knows(self, address: Seq<u8>) -> bool {
        self.irk matches Some(irk) && protocol::resolves(address, irk)
    }
}

/// What manufacturer data of the company 76 is reported as; that of no other company
/// is reported.
pub open spec fn reports_data(
    report: Option<EventView>,
    data: Map<u16, Vec<u8>>,
    at: u64,
    fresh: bool,
) -> bool {
    if data.contains_key(76u16) {
        report == Some(EventView::Advertisement { data: data[76u16]@, at, fresh })
    } else {
        report is None
    }
}

/// The device under control is watched before anything is discovered.
pub proof fn the_device_is_watched_first(scanner: ScannerView)
    ensures
        ({
            let (begun, subscribe) = scanner.begun();
            let (ready, wait) = begun.found(Finding::Subscribed);
            &&& subscribe == (ScanView::Subscribe { address: scanner.target })
            &&& ready.watching == scanner.watching.insert(scanner.target)
            &&& ready.state is Waiting
            &&& wait == (ScanView::Wait { report: None })
            &&& ready.target == scanner.target && ready.irk == scanner.irk && ready.known
                == scanner.known
        }),
{
}

/// A new address under which the device hides is followed: it is asked whether it is
/// random, then it is subscribed to, and what was cached of it is reported, as fresh
/// only if it was not known before the scan. Any other address is passed over.
pub proof fn hidden_addresses_are_followed(
    scanner: ScannerView,
    address: [u8; 6],
    data: HashMap<u16, Vec<u8>>,
    at: u64,
)
    ensures
        ({
            let (one, ask) = scanner.saw(Sight::Added { address });
            let (two, subscribe) = one.found(Finding::Random(true));
            let (three, query) = two.found(Finding::Subscribed);
            let (four, last) = three.found(Finding::Data { data: Some(data), at });
            if scanner.knows(address@) && !scanner.watching.contains(address@) {
                &&& ask == (ScanView::QueryKind { address: address@ })
                &&& subscribe == (ScanView::Subscribe { address: address@ })
                &&& query == (ScanView::QueryData { address: address@ })
                &&& last matches ScanView::Wait { report } && reports_data(
                    report,
                    data@,
                    at,
                    !scanner.known.contains(address@),
                )
                &&& four.state is Waiting
                &&& four.watching == scanner.watching.insert(address@)
                &&& three.found(Finding::Data { data: None, at }).1 == (ScanView::Wait {
                    report: None,
                })
                &&& one.found(Finding::Random(false)).1 == (ScanView::Wait { report: None })
                &&& one.found(Finding::Random(false)).0.state is Waiting
                &&& four.target == scanner.target && four.irk == scanner.irk && four.known
                    == scanner.known
            } else {
                &&& ask == (ScanView::Wait { report: None })
                &&& one == ScannerView { state: ScanningView::Waiting, ..scanner }
            }
        }),
{
}

/// What comes in from an address under which the device hides is reported as fresh, and
/// what happens to the device under control is reported as it happened; nothing of any
/// other device is.
pub proof fn what_happens_to_the_device_is_reported(
    scanner: ScannerView,
    address: [u8; 6],
    data: HashMap<u16, Vec<u8>>,
    at: u64,
    flag: bool,
)
    ensures
        ({
            let (left, scan) = scanner.saw(Sight::Data { address, data, at });
            &&& left == ScannerView { state: ScanningView::Waiting, ..scanner }
            &&& scan matches ScanView::Wait { report } && if scanner.knows(address@) {
                reports_data(report, data@, at, true)
            } else {
                report is None
            }
        }),
        scanner.saw(Sight::Connected { address, connected: flag }) == (
            ScannerView { state: ScanningView::Waiting, ..scanner },
            ScanView::Wait {
                report: if address@ == scanner.target {
                    Some(EventView::Connected(flag))
                } else {
                    None
                },
            },
        ),
        scanner.saw(Sight::Blocked { address, blocked: flag }) == (
            ScannerView { state: ScanningView::Waiting, ..scanner },
            ScanView::Wait {
                report: if address@ == scanner.target {
                    Some(EventView::Blocked(flag))
                } else {
                    None
                },
            },
        ),
        scanner.saw(Sight::Other) == (
            ScannerView { state: ScanningView::Waiting, ..scanner },
            ScanView::Wait { report: None },
        ),
{
}

/// A scan ends, with the reason, when the adapter is switched off, the discovery stops,
/// the device is removed or an answer fails; another device that is removed is only no
/// longer watched.
pub proof fn scans_end_for_a_reason(scanner: ScannerView, address: [u8; 6], message: String)
    ensures
        scanner.saw(Sight::PoweredOff).1 == (ScanView::End {
            failure: EventView::Failure("Bluetooth adapter is powered off"@),
        }),
        scanner.saw(Sight::Stopped).1 == (ScanView::End {
            failure: EventView::Failure("Bluetooth LE discovery stopped"@),
        }),
        scanner.saw(Sight::PoweredOff).0.state is Over,
        scanner.saw(Sight::Stopped).0.state is Over,
        ({
            let (left, scan) = scanner.saw(Sight::Removed { address });
            &&& left.watching == scanner.watching.remove(address@)
            &&& address@ == scanner.target ==> scan == (ScanView::End {
                failure: EventView::Failure("configured Bluetooth device was removed"@),
            }) && left.state is Over
            &&& address@ != scanner.target ==> scan == (ScanView::Wait { report: None })
                && left.state is Waiting
        }),
        !(scanner.state is Over) && !(scanner.state is Waiting) ==> scanner.found(
            Finding::Failed(message),
        ) == (
            ScannerView { state: ScanningView::Over, ..scanner },
            ScanView::End { failure: EventView::Failure(message@) },
        ),
{
}

/// The search begins with the adapter that is configured: the default one where none
/// is; it reads the adapters in order, and fails where there is none left.
pub proof fn the_configured_adapter_is_searched(
    adapter: Seq<char>,
    wanted: Seq<u8>,
    address: Seq<u8>,
    message: Seq<char>,
    index: int,
    count: int,
)
    ensures
        SearchView::start(None) is Default,
        match address::parsed(adapter) {
            Ok(wanted) => SearchView::start(Some(adapter)) == (SearchView::List { wanted }),
            Err(message) => SearchView::start(Some(adapter)) == SearchView::Failed(message),
        },
        (SearchView::List { wanted }).listed(Ok(count)) == if count > 0 {
            SearchView::Read { wanted, index: 0, count }
        } else {
            SearchView::Failed("configured Bluetooth adapter is unavailable"@)
        },
        (SearchView::List { wanted }).listed(Err(message)) == SearchView::Failed(message),
        ({
            let read = SearchView::Read { wanted, index, count };
            &&& read.read(Err(message)) == SearchView::Failed(message)
            &&& read.read(Ok(wanted)) == (SearchView::Found { index })
            &&& address != wanted ==> read.read(Ok(address)) == if index + 1 < count {
                SearchView::Read { wanted, index: index + 1, count }
            } else {
                SearchView::Failed("configured Bluetooth adapter is unavailable"@)
            }
        }),
{
}

/// Exactly the devices that are paired are listed, by their address and the name that
/// they give themselves; one without a name is called by its address.
pub proof fn paired_devices_are_listed(seen: Seq<Seen>, device: Seen)
    ensures
        paired_among(Seq::empty()).len() == 0,
        !device.paired ==> paired_among(seen.push(device)) == paired_among(seen),
        device.paired ==> {
            let listed = paired_among(seen.push(device));
            &&& listed.len() == paired_among(seen).len() + 1
            &&& listed.drop_last() == paired_among(seen)
            &&& listed.last().address == address::written(device.address@)
            &&& listed.last().name == match device.name {
                Some(name) => name@,
                None => address::written(device.address@),
            }
        },
{
    assert(seen.push(device).drop_last() =~= seen);
    if device.paired {
        assert(paired_among(seen.push(device)).drop_last() =~= paired_among(seen));
    }
}

proof fn first_difference(a: Seq<char>, b: Seq<char>, n: int)
    requires
        0 <= n <= a.len(),
        n <= b.len(),
        forall|i: int| 0 <= i < n ==> a[i] == b[i],
    ensures
        text::before(a, b) == text::before(a.skip(n), b.skip(n)),
    decreases n,
{
    if n > 0 {
        assert forall|i: int| 0 <= i < n - 1 implies a.skip(1)[i] == b.skip(1)[i] by {
            assert(a[i + 1] == b[i + 1]);
        }
        first_difference(a.skip(1), b.skip(1), n - 1);
        assert(a.skip(1).skip(n - 1) =~= a.skip(n));
        assert(b.skip(1).skip(n - 1) =~= b.skip(n));
        assert(a[0] == b[0]);
    } else {
        assert(a.skip(0) =~= a);
        assert(b.skip(0) =~= b);
    }
}

/// The order of texts is that of the first characters in which they differ; one that
/// only goes on where the other ends comes after it.
pub proof fn texts_are_ordered_by_their_first_difference(a: Seq<char>, b: Seq<char>, n: int)
    requires
        0 <= n <= a.len(),
        n <= b.len(),
        forall|i: int| 0 <= i < n ==> a[i] == b[i],
        n == a.len() || n == b.len() || a[n] != b[n],
    ensures
        text::before(a, b) <==> n < b.len() && (n == a.len() || a[n] < b[n]),
{
    first_difference(a, b, n);
}

/// Devices are listed by name, and those of one name by address.
pub proof fn devices_are_ordered_by_name(a: PairedDeviceView, b: PairedDeviceView)
    ensures
        a.name != b.name ==> (in_order(a, b) <==> text::before(a.name, b.name)),
        a.name == b.name && a.address != b.address ==> (in_order(a, b) <==> text::before(
            a.address,
            b.address,
        )),
        a == b ==> in_order(a, b),
{
    text::before_is_total(a.name, b.name);
    text::before_is_total(a.address, b.address);
    text::before_is_total(a.address, a.address);
}

/// A block takes its steps: the device is blocked, disconnected, and asked whether it is
/// blocked and connected.
pub proof fn a_block_takes_its_steps(
    device: Seq<char>,
    address: Seq<u8>,
    disconnected: Option<Seq<char>>,
)
    requires
        address::parsed(device) == Ok::<Seq<u8>, Seq<char>>(address),
    ensures
        ({
            let block = GuardView::start(device);
            let disconnect = block.acted(None);
            let blocked = disconnect.acted(disconnected);
            let connected = blocked.told(Ok(true));
            &&& block == (GuardView::Block { address })
            &&& disconnect == (GuardView::Disconnect { address })
            &&& blocked == (GuardView::QueryBlocked { address, disconnected })
            &&& connected == (GuardView::QueryConnected { address, disconnected })
            &&& connected.told(Ok(false)) == GuardView::Finished(None)
        }),
{
}

/// A block that fails says why: that it could not be installed, that the device could
/// not be disconnected, or that it does not say that it is blocked and disconnected.
pub proof fn a_failed_block_says_why(
    device: Seq<char>,
    address: Seq<u8>,
    disconnected: Option<Seq<char>>,
    message: Seq<char>,
)
    ensures
        address::parsed(device) == Err::<Seq<u8>, Seq<char>>(message) ==> GuardView::start(device)
            == GuardView::Finished(Some(message)),
        (GuardView::Block { address }).acted(Some(message)) == GuardView::Finished(
            Some("cannot install device connection guard: "@ + message),
        ),
        ({
            let blocked = GuardView::QueryBlocked { address, disconnected };
            let connected = GuardView::QueryConnected { address, disconnected };
            let unconfirmed = GuardView::Finished(
                Some(
                    match disconnected {
                        Some(failure) => "cannot disconnect guarded device: "@ + failure,
                        None => "device connection guard could not be confirmed"@,
                    },
                ),
            );
            &&& blocked.told(Ok(false)) == unconfirmed
            &&& connected.told(Ok(true)) == unconfirmed
            &&& blocked.told(Err(message)) == GuardView::Finished(Some(message))
            &&& connected.told(Err(message)) == GuardView::Finished(Some(message))
        }),
{
}

/// A link takes its steps: the device is connected, a socket made, the channel opened,
/// and the two greetings sent; a step that fails says why.
pub proof fn a_link_takes_its_steps(
    device: Seq<char>,
    address: Seq<u8>,
    message: Seq<char>,
)
    ensures
        match address::parsed(device) {
            Ok(address) => LinkView::start(device) == (LinkView::Device { address }),
            Err(message) => LinkView::start(device) == LinkView::Failed(message),
        },
        ({
            let done = EndedView::Done;
            let (late, failed) = (EndedView::TimedOut(message), EndedView::Failed(message));
            let connect = LinkView::Device { address };
            let socket = connect.after(done);
            let channel = socket.after(done);
            let handshake = channel.after(done);
            let notifications = handshake.after(done);
            let why = LinkView::Failed(message);
            &&& socket == (LinkView::Socket { address })
            &&& channel == (LinkView::Channel { address })
            &&& handshake is Handshake
            &&& notifications is Notifications
            &&& notifications.after(done) is Attached
            &&& connect.after(late) == LinkView::Failed("Bluetooth connection failed: "@ + message)
            &&& connect.after(failed) == LinkView::Failed(
                "Bluetooth connection failed: "@ + message,
            )
            &&& channel.after(late) == LinkView::Failed("AAP connect timed out: "@ + message)
            &&& channel.after(failed) == LinkView::Failed(
                "AAP control channel unavailable: "@ + message,
            )
            &&& socket.after(failed) == why && socket.after(late) == why
            &&& handshake.after(failed) == why && handshake.after(late) == why
            &&& notifications.after(failed) == why && notifications.after(late) == why
            &&& why.after(done) == why
        }),
{
}

/// A packet counts as sent exactly if all of its bytes were written; a connection is
/// reported under the generation that it was asked for in; and a step of the exception
/// that takes too long or fails is told apart.
pub proof fn ends_are_reported(
    length: usize,
    write: Write,
    generation: u64,
    failure: Option<Seq<char>>,
    step: Exception,
    message: Seq<char>,
)
    ensures
        shortfall(length, write) is None <==> write == Write::Wrote(length),
        shortfall(length, write) matches Some(reason) ==> reason == match write {
            Write::Wrote(_) => "short AAP packet write"@,
            Write::TimedOut(message) => "AAP write timed out: "@ + message@,
            Write::Failed(message) => message@,
        },
        readiness(generation, Some(failure)) == (EventView::Ready { generation, failure }),
        readiness(generation, None) == (EventView::Ready {
            generation,
            failure: Some("Bluetooth connection timed out"@),
        }),
        exception_outcome(step, EndedView::Done) is Done,
        exception_outcome(step, EndedView::TimedOut(message)) == OutcomeView::Failed(
            "setup timed out waiting for valid proximity keys: "@ + message,
        ),
        step is Connect ==> exception_outcome(step, EndedView::Failed(message))
            == OutcomeView::Failed("setup Bluetooth connection failed: "@ + message),
        !(step is Connect) ==> exception_outcome(step, EndedView::Failed(message))
            == OutcomeView::Failed(message),
{
}

/// In lower case the letters from A to Z are 32 code points further; nothing else
/// changes, and the length stays.
pub proof fn only_capital_letters_are_lowered(text: Seq<char>, i: int)
    requires
        0 <= i < text.len(),
    ensures
        text::lower(text).len() == text.len(),
        65 <= text[i] as int <= 90 ==> text::lower(text)[i] as int == text[i] as int + 32,
        !(65 <= text[i] as int <= 90) ==> text::lower(text)[i] == text[i],
{
}

/// A profile plays AAC exactly if it is one for stereo playback, if AAC stands in its
/// name or in its description, in whatever case, and if it is not said to be
/// unavailable.
pub proof fn aac_is_said_in_the_name_or_description(name: Seq<char>, profile: JsonView)
    ensures
        plays_aac(name, profile) <==> {
            &&& exists|at: int| text::stands_at(name, "a2dp"@, at)
            &&& (exists|at: int| text::stands_at(text::lower(name), "aac"@, at)) || (
            profile.member("description"@) matches JsonView::Text(description) && exists|at: int|
                text::stands_at(text::lower(description), "aac"@, at))
            &&& profile.member("available"@) != JsonView::Text("no"@)
        },
{
    reveal_strlit("aac");
    let nothing = text::lower(Seq::empty());
    assert(nothing.len() == 0);
    assert("aac"@.len() == 3);
    if text::contains(nothing, "aac"@) {
        let at = choose|at: int| text::stands_at(nothing, "aac"@, at);
    }
}

/// A card belongs to the device if one of two properties is its address, in whatever
/// case.
pub proof fn cards_are_found_by_address(card: JsonView, device: Seq<char>)
    ensures
        card_of(card, device) <==> {
            let properties = card.member("properties"@);
            ||| properties.member("api.bluez5.address"@) matches JsonView::Text(s) && text::lower(
                s,
            ) == text::lower(device)
            ||| properties.member("device.string"@) matches JsonView::Text(s) && text::lower(s)
                == text::lower(device)
        },
{
}

/// On a card the profile is set that plays AAC, unless it is the active one; a card
/// without such a profile is left alone.
pub proof fn another_profile_is_replaced(card: JsonView, profile: Seq<char>)
    ensures
        aac_name(card) is None ==> choice(card) == Ok::<Option<(Seq<char>, Seq<char>)>, Seq<char>>(
            None,
        ),
        aac_name(card) == Some(profile) ==> choice(card) == if card.member("active_profile"@)
            == JsonView::Text(profile) {
            Ok::<Option<(Seq<char>, Seq<char>)>, Seq<char>>(None)
        } else {
            match card.member("name"@) {
                JsonView::Text(name) => Ok(Some((name, profile))),
                _ => Err("audio card name is missing"@),
            }
        },
{
}

proof fn first_card(cards: Seq<JsonView>, device: Seq<char>, from: int, i: int)
    requires
        0 <= from <= i <= cards.len(),
        forall|j: int| from <= j < i ==> !card_of(#[trigger] cards[j], device),
    ensures
        preferred(cards, device, from) == preferred(cards, device, i),
    decreases i - from,
{
    if from < i {
        assert(!card_of(cards[from], device));
        first_card(cards, device, from + 1, i);
    }
}

/// The first card of the device decides; without one nothing is done.
pub proof fn the_first_card_of_the_device_decides(
    cards: Seq<JsonView>,
    device: Seq<char>,
    i: int,
)
    requires
        0 <= i <= cards.len(),
        forall|j: int| 0 <= j < i ==> !card_of(#[trigger] cards[j], device),
    ensures
        i < cards.len() && card_of(cards[i], device) ==> selection(JsonView::Array(cards), device)
            == choice(cards[i]),
        i == cards.len() ==> selection(JsonView::Array(cards), device) == Ok::<
            Option<(Seq<char>, Seq<char>)>,
            Seq<char>,
        >(None),
{
    first_card(cards, device, 0, i);
}

/// What the audio server says is used if it said it and it is a list; otherwise it is
/// said what is wrong.
pub proof fn audio_answers_are_used(success: bool, output: Seq<u8>, device: Seq<char>)
    ensures
        !success ==> preference(success, output, device) == Err::<
            Option<(Seq<char>, Seq<char>)>,
            Seq<char>,
        >("audio profile query failed"@),
        success ==> match json::document(output) {
            Err(message) => preference(success, output, device) == Err::<
                Option<(Seq<char>, Seq<char>)>,
                Seq<char>,
            >("invalid audio card response: "@ + message),
            Ok(JsonView::Array(cards)) => preference(success, output, device) == selection(
                JsonView::Array(cards),
                device,
            ),
            Ok(_) => preference(success, output, device) == Err::<
                Option<(Seq<char>, Seq<char>)>,
                Seq<char>,
            >("invalid audio card list"@),
        },
{
}

/// A list of devices is sorted exactly if no device comes before one that it should
/// come after.
pub proof fn sorted_lists_are_in_order(devices: Seq<PairedDeviceView>)
    ensures
        sorted(devices) <==> forall|i: int, j: int|
            0 <= i < j < devices.len() ==> in_order(devices[i], devices[j]),
{
}

/// A part stands in a text where all of its characters follow each other.
pub proof fn parts_stand_where_their_characters_do(text: Seq<char>, part: Seq<char>, at: int)
    ensures
        text::stands_at(text, part, at) <==> 0 <= at && at + part.len() <= text.len() && forall|
            i: int,
        |
            0 <= i < part.len() ==> text[at + i] == #[trigger] part[i],
        text::contains(text, part) <==> exists|at: int| text::stands_at(text, part, at),
{
    if 0 <= at && at + part.len() <= text.len() {
        let cut = text.subrange(at, at + part.len());
        assert(forall|i: int| 0 <= i < part.len() ==> cut[i] == text[at + i]);
        if forall|i: int| 0 <= i < part.len() ==> text[at + i] == #[trigger] part[i] {
            assert(cut =~= part);
        }
    }
}

/// A new scanner watches nothing, and recognizes the device by its identity key, if its
/// keys are known.
pub proof fn a_scanner_goes_by_the_identity_key(
    target: Seq<u8>,
    keys: KeysView,
    known: Set<Seq<u8>>,
    address: Seq<u8>,
)
    ensures
        ({
            let scanner = ScannerView::of(target, Some(keys), known);
            &&& scanner.knows(address) <==> protocol::resolves(address, keys.irk)
            &&& scanner.target == target && scanner.known == known
            &&& !scanner.watching.contains(address)
        }),
        !ScannerView::of(target, None, known).knows(address),
{
}

/// That a profile could not be set, and that a preference could not be met, is said; the
/// warning belongs to the session in which it came up.
pub proof fn unmet_preferences_are_told(success: bool, generation: u64, message: Seq<char>)
    ensures
        unset(success) is None <==> success,
        unset(success) matches Some(reason) ==> reason == "AAC profile selection failed"@,
        warning(generation, message) matches EventView::AudioWarning { generation: g, message: m }
            && g == generation && m == "Connected; AAC preference unavailable: "@ + message,
{
}

} // verus!
