//! Which audio profile the device is to be used with. To select one is a
//! preference: nothing is disconnected for want of it.
use crate::bluetooth::{Event, EventView};
use crate::json::{self, Json, JsonView};
use crate::storage::failure;
use crate::text;
use vstd::prelude::*;

verus! {

/// The place of the first profile, from `from` on, that plays AAC and is not said
/// to be unavailable.
pub open spec fn aac_at(profiles: Seq<(Seq<char>, JsonView)>, from: int) -> Option<int>
    decreases profiles.len() - from,
{
    if from < 0 || from >= profiles.len() {
        None
    } else if plays_aac(profiles[from].0, profiles[from].1) {
        Some(from)
    } else {
        aac_at(profiles, from + 1)
    }
}

/// A profile for stereo playback whose name or description says AAC, in upper or
/// lower case, and that is not said to be unavailable.
pub open spec fn plays_aac(name: Seq<char>, profile: JsonView) -> bool {
    let description = match profile.member("description"@).text() {
        Some(description) => description,
        None => Seq::empty(),
    };
    &&& text::contains(name, "a2dp"@)
    &&& text::contains(text::lower(name), "aac"@) || text::contains(
        text::lower(description),
        "aac"@,
    )
    &&& profile.member("available"@).text() != Some("no"@)
}

/// The name of the profile of a card that plays AAC.
pub open spec fn aac_name(card: JsonView) -> Option<Seq<char>> {
    match card.member("profiles"@) {
        JsonView::Object(profiles) => match aac_at(profiles, 0) {
            Some(i) => Some(profiles[i].0),
            None => None,
        },
        _ => None,
    }
}

fn is_aac(name: &str, profile: &Json) -> (r: bool)
    ensures
        r == plays_aac(name@, profile@),
{
    let described = match profile.text_member("description") {
        Some(description) => text::holds_lower(description.as_str(), "aac"),
        None => text::holds_lower("", "aac"),
    };
    proof {
        reveal_strlit("");
        assert(""@ =~= Seq::<char>::empty());
    }
    let unavailable = match profile.text_member("available") {
        Some(available) => text::same(available.as_str(), "no"),
        None => false,
    };
    text::holds(name, "a2dp") && (text::holds_lower(name, "aac") || described) && !unavailable
}

/// The name of the profile of a card that plays AAC, if it has one.
pub fn aac_profile(card: &Json) -> (r: Option<&str>)
    ensures
        match r {
            Some(name) => aac_name(card@) == Some(name@),
            None => aac_name(card@) is None,
        },
{
    match card.member("profiles") {
        Some(Json::Object(profiles)) => {
            let ghost all = card@.member("profiles"@)->Object_0;
            let mut i: usize = 0;
            while i < profiles.len()
                invariant
                    i <= profiles.len(),
                    card@.member("profiles"@) == JsonView::Object(all),
                    card@.member("profiles"@) == Json::Object(*profiles).model(),
                    aac_at(all, 0) == aac_at(all, i as int),
                decreases profiles.len() - i,
            {
                assert(all[i as int] == (profiles@[i as int].0@, profiles@[i as int].1.model()));
                if is_aac(profiles[i].0.as_str(), &profiles[i].1) {
                    return Some(profiles[i].0.as_str());
                }
                i = i + 1;
            }
            None
        },
        _ => None,
    }
}

/// A card that belongs to the device with that address.
pub open spec fn card_of(card: JsonView, device: Seq<char>) -> bool {
    let properties = card.member("properties"@);
    ||| properties.member("api.bluez5.address"@).text() matches Some(s) && text::lower(s)
        == text::lower(device)
    ||| properties.member("device.string"@).text() matches Some(s) && text::lower(s)
        == text::lower(device)
}

/// What is to be done about a card: nothing, or the profile to be set on the card
/// of that name.
pub open spec fn choice(card: JsonView) -> Result<Option<(Seq<char>, Seq<char>)>, Seq<char>> {
    match aac_name(card) {
        None => Ok(None),
        Some(profile) => if card.member("active_profile"@).text() == Some(profile) {
            Ok(None)
        } else {
            match card.member("name"@).text() {
                Some(name) => Ok(Some((name, profile))),
                None => Err("audio card name is missing"@),
            }
        },
    }
}

/// What is to be done about the first card, from `from` on, of the device.
pub open spec fn preferred(cards: Seq<JsonView>, device: Seq<char>, from: int) -> Result<
    Option<(Seq<char>, Seq<char>)>,
    Seq<char>,
>
    decreases cards.len() - from,
{
    if from < 0 || from >= cards.len() {
        Ok(None)
    } else if card_of(cards[from], device) {
        choice(cards[from])
    } else {
        preferred(cards, device, from + 1)
    }
}

/// What is to be done about the cards that a document lists.
pub open spec fn selection(cards: JsonView, device: Seq<char>) -> Result<
    Option<(Seq<char>, Seq<char>)>,
    Seq<char>,
> {
    match cards {
        JsonView::Array(cards) => preferred(cards, device, 0),
        _ => Err("invalid audio card list"@),
    }
}

/// The card and the profile to be set on it, if there is anything to do.
pub open spec fn selected(result: Result<Option<(String, String)>, String>) -> Result<
    Option<(Seq<char>, Seq<char>)>,
    Seq<char>,
> {
    match result {
        Ok(Some((name, profile))) => Ok(Some((name@, profile@))),
        Ok(None) => Ok(None),
        Err(message) => Err(message@),
    }
}

fn has_address(properties: &Json, key: &str, device: &str) -> (r: bool)
    ensures
        r == (properties@.member(key@).text() matches Some(s) && text::lower(s) == text::lower(
            device@,
        )),
{
    match properties.text_member(key) {
        Some(s) => text::same_ignoring_case(s.as_str(), device),
        None => false,
    }
}

fn belongs(card: &Json, device: &str) -> (r: bool)
    ensures
        r == card_of(card@, device@),
{
    match card.member("properties") {
        Some(properties) => has_address(properties, "api.bluez5.address", device) || has_address(
            properties,
            "device.string",
            device,
        ),
        None => false,
    }
}

fn choose_profile(card: &Json) -> (r: Result<Option<(String, String)>, String>)
    ensures
        selected(r) == choice(card@),
{
    match aac_profile(card) {
        None => Ok(None),
        Some(profile) => {
            if let Some(active) = card.text_member("active_profile") {
                if text::same(active.as_str(), profile) {
                    return Ok(None);
                }
            }
            match card.text_member("name") {
                Some(name) => Ok(Some((name.clone(), profile.to_owned()))),
                None => Err("audio card name is missing".to_owned()),
            }
        },
    }
}

/// The card of the device and the profile to be set on it, if there is anything to
/// do.
pub fn select_profile(cards: &Json, device: &str) -> (r: Result<Option<(String, String)>, String>)
    ensures
        selected(r) == selection(cards@, device@),
{
    match cards {
        Json::Array(items) => {
            let ghost all = cards@->Array_0;
            let mut i: usize = 0;
            while i < items.len()
                invariant
                    i <= items.len(),
                    *cards == Json::Array(*items),
                    cards@ == JsonView::Array(all),
                    preferred(all, device@, 0) == preferred(all, device@, i as int),
                decreases items.len() - i,
            {
                assert(all[i as int] == items@[i as int].model());
                if belongs(&items[i], device) {
                    return choose_profile(&items[i]);
                }
                i = i + 1;
            }
            Ok(None)
        },
        _ => Err("invalid audio card list".to_owned()),
    }
}

/// What is to be done after the audio cards were asked for.
pub open spec fn preference(success: bool, output: Seq<u8>, device: Seq<char>) -> Result<
    Option<(Seq<char>, Seq<char>)>,
    Seq<char>,
> {
    if !success {
        Err("audio profile query failed"@)
    } else {
        match json::document(output) {
            Ok(cards) => selection(cards, device),
            Err(message) => Err("invalid audio card response: "@ + message),
        }
    }
}

/// What to do after the audio cards were asked for: `success` says whether that
/// went well, `output` holds what came out.
pub fn prefer_aac(success: bool, output: &[u8], device: &str) -> (r: Result<
    Option<(String, String)>,
    String,
>)
    ensures
        selected(r) == preference(success, output@, device@),
        selected(r) == if !success {
            Err("audio profile query failed"@)
        } else {
            match json::document(output@) {
                Ok(cards) => selection(cards, device@),
                Err(message) => Err("invalid audio card response: "@ + message),
            }
        },
{
    if !success {
        return Err("audio profile query failed".to_owned());
    }
    match json::parse(output) {
        Ok(cards) => select_profile(&cards, device),
        Err(message) => Err(text::join("invalid audio card response: ", message.as_str())),
    }
}

/// What is wrong with the setting of a profile, if anything is.
pub open spec fn unset(success: bool) -> Option<Seq<char>> {
    if success {
        None
    } else {
        Some("AAC profile selection failed"@)
    }
}

/// The warning that a preference could not be met.
pub open spec fn warning(generation: u64, message: Seq<char>) -> EventView {
    EventView::AudioWarning {
        generation,
        message: "Connected; AAC preference unavailable: "@ + message,
    }
}

/// Whether the profile was set.
pub fn profile_set(success: bool) -> (r: Result<(), String>)
    ensures
        failure(r) == unset(success),
        failure(r) == if success {
            None
        } else {
            Some("AAC profile selection failed"@)
        },
{
    if success {
        Ok(())
    } else {
        Err("AAC profile selection failed".to_owned())
    }
}

/// The report that a preference could not be met; the connection stays.
pub fn audio_warning(generation: u64, message: &str) -> (r: Event)
    ensures
        r@ == warning(generation, message@),
        r@ == (EventView::AudioWarning {
            generation,
            message: "Connected; AAC preference unavailable: "@ + message@,
        }),
{
    Event::AudioWarning {
        generation,
        message: text::join("Connected; AAC preference unavailable: ", message),
    }
}

proof fn first_profile(profiles: Seq<(Seq<char>, JsonView)>, from: int)
    requires
        0 <= from,
    ensures
        match aac_at(profiles, from) {
            Some(i) => from <= i < profiles.len() && plays_aac(profiles[i].0, profiles[i].1)
                && forall|j: int|
                from <= j < i ==> !plays_aac((#[trigger] profiles[j]).0, profiles[j].1),
            None => forall|j: int|
                from <= j < profiles.len() ==> !plays_aac(
                    (#[trigger] profiles[j]).0,
                    profiles[j].1,
                ),
        },
    decreases profiles.len() - from,
{
    if from < profiles.len() && !plays_aac(profiles[from].0, profiles[from].1) {
        first_profile(profiles, from + 1);
    }
}

/// The profile that is chosen is one of the card's, plays AAC, and is not said to
/// be unavailable; no profile before it does, and where there is none no profile
/// of the card does.
pub proof fn the_first_available_aac_profile_is_chosen(card: JsonView)
    ensures
        match (aac_name(card), card.member("profiles"@)) {
            (Some(name), JsonView::Object(profiles)) => exists|i: int|
                0 <= i < profiles.len() && (#[trigger] profiles[i]).0 == name && plays_aac(
                    name,
                    profiles[i].1,
                ) && forall|j: int|
                    0 <= j < i ==> !plays_aac((#[trigger] profiles[j]).0, profiles[j].1),
            (None, JsonView::Object(profiles)) => forall|j: int|
                0 <= j < profiles.len() ==> !plays_aac((#[trigger] profiles[j]).0, profiles[j].1),
            (Some(_), _) => false,
            (None, _) => true,
        },
{
    if let JsonView::Object(profiles) = card.member("profiles"@) {
        first_profile(profiles, 0);
    }
}

} // verus!
