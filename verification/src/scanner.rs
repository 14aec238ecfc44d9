//! Looking for advertisements of the device under control, and watching it.
use crate::address;
use crate::bluetooth::{Event, EventView};
use crate::protocol;
use crate::storage::{Keys, KeysView};
use std::collections::HashMap;
use vstd::prelude::*;

verus! {

/// An address under which the device with those keys hides.
pub open spec fn hides(address: Seq<u8>, irk: Option<Seq<u8>>) -> bool {
    match irk {
        Some(irk) => protocol::resolves(address, irk),
        None => false,
    }
}

/// Whether an address belongs to the device with those keys.
pub fn recognized(address: [u8; 6], irk: &Option<[u8; 16]>) -> (r: bool)
    ensures
        r == hides(address@, protocol::key_bytes(*irk)),
{
    match irk {
        Some(irk) => protocol::resolve_rpa(address, irk),
        None => false,
    }
}

/// The company whose manufacturer data holds the advertisement.
pub const COMPANY: u16 = 76;

/// The event that manufacturer data gives rise to.
pub open spec fn emitted(data: Map<u16, Vec<u8>>, at: u64, fresh: bool) -> Option<EventView> {
    if data.contains_key(COMPANY) {
        Some(EventView::Advertisement { data: data[COMPANY]@, at, fresh })
    } else {
        None
    }
}

/// The event that manufacturer data, received at `at`, gives rise to.
pub fn emit_data(data: &HashMap<u16, Vec<u8>>, at: u64, fresh: bool) -> (r: Option<Event>)
    ensures
        match r {
            Some(event) => emitted(data@, at, fresh) == Some(event@),
            None => emitted(data@, at, fresh) is None,
        },
{
    broadcast use vstd::std_specs::hash::group_hash_axioms;

    match data.get(&COMPANY) {
        Some(bytes) => {
            let copy = bytes.clone();
            assert(copy@ =~= bytes@);
            Some(Event::Advertisement { data: copy, at, fresh })
        },
        None => None,
    }
}

/// What the scanner is told: by the discovery, by a device that it watches, or
/// in answer to what it asked for. Bytes are manufacturer data, by company.
pub enum Sight {
    Added { address: [u8; 6] },
    Removed { address: [u8; 6] },
    PoweredOff,
    Stopped,
    Data { address: [u8; 6], data: HashMap<u16, Vec<u8>>, at: u64 },
    Connected { address: [u8; 6], connected: bool },
    Blocked { address: [u8; 6], blocked: bool },
    Other,
}

/// The answer to what the scanner asked for.
pub enum Finding {
    Random(bool),
    Subscribed,
    Data { data: Option<HashMap<u16, Vec<u8>>>, at: u64 },
    Failed(String),
}

/// What the scanner awaits.
pub enum Scanning {
    Target,
    Waiting,
    Kind { address: [u8; 6] },
    Subscription { address: [u8; 6] },
    Cached { address: [u8; 6] },
    Over,
}

#[verifier::ext_equal]
pub enum ScanningView {
    Target,
    Waiting,
    Kind { address: Seq<u8> },
    Subscription { address: Seq<u8> },
    Cached { address: Seq<u8> },
    Over,
}

impl View for Scanning {
    type V = ScanningView;

    open spec fn view(&self) -> ScanningView {
        match self {
            Scanning::Target => ScanningView::Target,
            Scanning::Waiting => ScanningView::Waiting,
            Scanning::Kind { address } => ScanningView::Kind { address: address@ },
            Scanning::Subscription { address } => ScanningView::Subscription { address: address@ },
            Scanning::Cached { address } => ScanningView::Cached { address: address@ },
            Scanning::Over => ScanningView::Over,
        }
    }
}

/// How the scanner goes on: it wants to know whether the address of a device is
/// random, what happens to a device, or what was cached of it; it waits, with a
/// report if there is one; or it is over.
pub enum Scan {
    QueryKind { address: [u8; 6] },
    Subscribe { address: [u8; 6] },
    QueryData { address: [u8; 6] },
    Wait { report: Option<Event> },
    End { failure: Event },
}

#[verifier::ext_equal]
pub enum ScanView {
    QueryKind { address: Seq<u8> },
    Subscribe { address: Seq<u8> },
    QueryData { address: Seq<u8> },
    Wait { report: Option<EventView> },
    End { failure: EventView },
}

/// The report that there may be.
pub open spec fn report_of(report: Option<Event>) -> Option<EventView> {
    match report {
        Some(event) => Some(event@),
        None => None,
    }
}

impl View for Scan {
    type V = ScanView;

    open spec fn view(&self) -> ScanView {
        match self {
            Scan::QueryKind { address } => ScanView::QueryKind { address: address@ },
            Scan::Subscribe { address } => ScanView::Subscribe { address: address@ },
            Scan::QueryData { address } => ScanView::QueryData { address: address@ },
            Scan::Wait { report } => ScanView::Wait { report: report_of(*report) },
            Scan::End { failure } => ScanView::End { failure: failure@ },
        }
    }
}

/// Looks for advertisements of the device under control and watches it.
pub struct Scanner {
    target: [u8; 6],
    irk: Option<[u8; 16]>,
    known: Vec<[u8; 6]>,
    watching: Vec<[u8; 6]>,
    state: Scanning,
}

/// `known` holds what was cached before the scan, `watching` what is watched.
pub struct ScannerView {
    pub target: Seq<u8>,
    pub irk: Option<Seq<u8>>,
    pub known: Set<Seq<u8>>,
    pub watching: Set<Seq<u8>>,
    pub state: ScanningView,
}

/// The addresses in a list.
pub open spec fn addresses(list: Seq<[u8; 6]>) -> Set<Seq<u8>> {
    Set::new(|address: Seq<u8>| exists|i: int| 0 <= i < list.len() && (#[trigger] list[i])@ == address)
}

impl View for Scanner {
    type V = ScannerView;

    closed spec fn view(&self) -> ScannerView {
        ScannerView {
            target: self.target@,
            irk: protocol::key_bytes(self.irk),
            known: addresses(self.known@),
            watching: addresses(self.watching@),
            state: self.state@,
        }
    }
}

impl ScannerView {
    pub open spec fn to(self, state: ScanningView) -> ScannerView {
        ScannerView { state, ..self }
    }

    pub open spec fn fail(self, message: Seq<char>) -> (ScannerView, ScanView) {
        (self.to(ScanningView::Over), ScanView::End { failure: EventView::Failure(message) })
    }

    pub open spec fn report(self, report: Option<EventView>) -> (ScannerView, ScanView) {
        (self.to(ScanningView::Waiting), ScanView::Wait { report })
    }

    pub open spec fn watches(self, address: Seq<u8>) -> ScannerView {
        ScannerView { watching: self.watching.insert(address), ..self }
    }

    /// A scanner for the device with those keys, before it has begun.
    pub open spec fn of(
        target: Seq<u8>,
        keys: Option<KeysView>,
        known: Set<Seq<u8>>,
    ) -> ScannerView {
        ScannerView {
            target,
            irk: match keys {
                Some(keys) => Some(keys.irk),
                None => None,
            },
            known,
            watching: Set::empty(),
            state: ScanningView::Target,
        }
    }

    /// The device under control is watched before anything is discovered.
    pub open spec fn begun(self) -> (ScannerView, ScanView) {
        (self.to(ScanningView::Target), ScanView::Subscribe { address: self.target })
    }

    /// Only addresses under which the device hides are followed, each once.
    pub open spec fn added(self, address: Seq<u8>) -> (ScannerView, ScanView) {
        if hides(address, self.irk) && !self.watching.contains(address) {
            (
                self.watches(address).to(ScanningView::Kind { address }),
                ScanView::QueryKind { address },
            )
        } else {
            self.report(None)
        }
    }

    pub open spec fn removed(self, address: Seq<u8>) -> (ScannerView, ScanView) {
        let left = ScannerView { watching: self.watching.remove(address), ..self };
        if address == self.target {
            left.fail("configured Bluetooth device was removed"@)
        } else {
            left.report(None)
        }
    }

    /// What was told while the scanner waited.
    pub open spec fn saw(self, sight: Sight) -> (ScannerView, ScanView) {
        match sight {
            Sight::Added { address } => self.added(address@),
            Sight::Removed { address } => self.removed(address@),
            Sight::PoweredOff => self.fail("Bluetooth adapter is powered off"@),
            Sight::Stopped => self.fail("Bluetooth LE discovery stopped"@),
            Sight::Data { address, data, at } => self.report(
                if hides(address@, self.irk) {
                    emitted(data@, at, true)
                } else {
                    None
                },
            ),
            Sight::Connected { address, connected } => self.report(
                if address@ == self.target {
                    Some(EventView::Connected(connected))
                } else {
                    None
                },
            ),
            Sight::Blocked { address, blocked } => self.report(
                if address@ == self.target {
                    Some(EventView::Blocked(blocked))
                } else {
                    None
                },
            ),
            Sight::Other => self.report(None),
        }
    }

    /// What was cached before the scan is reported but not as fresh.
    pub open spec fn cached(
        self,
        address: Seq<u8>,
        data: Option<HashMap<u16, Vec<u8>>>,
        at: u64,
    ) -> (ScannerView, ScanView) {
        self.report(
            match data {
                Some(data) => emitted(data@, at, !self.known.contains(address)),
                None => None,
            },
        )
    }

    /// What was answered.
    pub open spec fn found(self, finding: Finding) -> (ScannerView, ScanView) {
        match (self.state, finding) {
            (ScanningView::Over, _) | (ScanningView::Waiting, _) => (
                self,
                ScanView::Wait { report: None },
            ),
            (_, Finding::Failed(message)) => self.fail(message@),
            (ScanningView::Target, Finding::Subscribed) => self.watches(self.target).report(None),
            (ScanningView::Kind { address }, Finding::Random(true)) => (
                self.to(ScanningView::Subscription { address }),
                ScanView::Subscribe { address },
            ),
            (ScanningView::Kind { .. }, Finding::Random(false)) => self.report(None),
            (ScanningView::Subscription { address }, Finding::Subscribed) => (
                self.to(ScanningView::Cached { address }),
                ScanView::QueryData { address },
            ),
            (ScanningView::Cached { address }, Finding::Data { data, at }) => self.cached(
                address,
                data,
                at,
            ),
            _ => (self, ScanView::Wait { report: None }),
        }
    }
}

fn is_listed(list: &Vec<[u8; 6]>, address: &[u8; 6]) -> (r: bool)
    ensures
        r == addresses(list@).contains(address@),
{
    for i in 0..list.len()
        invariant
            forall|j: int| 0 <= j < i ==> (#[trigger] list@[j])@ != address@,
    {
        if address::same(&list[i], address) {
            return true;
        }
    }
    false
}

fn list(list: &mut Vec<[u8; 6]>, address: [u8; 6])
    ensures
        addresses(final(list)@) == addresses(old(list)@).insert(address@),
{
    let ghost before = list@;
    list.push(address);
    proof {
        assert(list@ == before.push(address));
        assert forall|a: Seq<u8>| addresses(list@).contains(a) == addresses(before).insert(
            address@,
        ).contains(a) by {
            if addresses(before).contains(a) {
                let i = choose|i: int| 0 <= i < before.len() && (#[trigger] before[i])@ == a;
                assert(list@[i]@ == a);
            }
            if a == address@ {
                assert(list@[before.len() as int]@ == a);
            }
            if addresses(list@).contains(a) {
                let i = choose|i: int| 0 <= i < list@.len() && (#[trigger] list@[i])@ == a;
                if i < before.len() {
                    assert(before[i]@ == a);
                }
            }
        }
        assert(addresses(list@) =~= addresses(before).insert(address@));
    }
}

fn unlist(list: &mut Vec<[u8; 6]>, address: &[u8; 6])
    ensures
        addresses(final(list)@) == addresses(old(list)@).remove(address@),
{
    let ghost before = list@;
    let mut left: Vec<[u8; 6]> = Vec::new();
    for i in 0..list.len()
        invariant
            list@ == before,
            forall|j: int|
                0 <= j < left@.len() ==> (#[trigger] left@[j])@ != address@ && addresses(
                    before,
                ).contains(left@[j]@),
            forall|j: int|
                0 <= j < i ==> (#[trigger] before[j])@ == address@ || addresses(left@).contains(
                    before[j]@,
                ),
    {
        let entry = list[i];
        if !address::same(&entry, address) {
            let ghost shorter = left@;
            left.push(entry);
            proof {
                assert(before[i as int]@ == entry@);
                assert(left@[shorter.len() as int]@ == entry@);
                assert forall|a: Seq<u8>| addresses(shorter).contains(a) implies addresses(
                    left@,
                ).contains(a) by {
                    let k = choose|k: int| 0 <= k < shorter.len() && (#[trigger] shorter[k])@ == a;
                    assert(left@[k]@ == a);
                }
            }
        }
    }
    assert(addresses(left@) =~= addresses(before).remove(address@));
    *list = left;
}

/// Begins to look for the device that a text names; `known` holds the addresses
/// that were cached before.
pub fn scanner(device: &str, keys: &Option<Keys>, known: Vec<[u8; 6]>) -> (r: Result<
    (Scanner, Scan),
    String,
>)
    ensures
        r matches Ok((scanner, scan)) ==> (scanner@, scan@) == ScannerView::of(
            scanner@.target,
            keys.deep_view(),
            addresses(known@),
        ).begun(),
        match r {
            Ok((scanner, scan)) => address::parsed(device@) == Ok::<Seq<u8>, Seq<char>>(
                scanner@.target,
            ) && (scanner@, scan@) == (ScannerView {
                target: scanner@.target,
                irk: match keys {
                    Some(keys) => Some(keys.irk@),
                    None => None,
                },
                known: addresses(known@),
                watching: Set::empty(),
                state: ScanningView::Target,
            }).begun(),
            Err(message) => address::parsed(device@) == Err::<Seq<u8>, Seq<char>>(message@),
        },
{
    match address::parse(device) {
        Err(message) => Err(message),
        Ok(target) => {
            let irk = match keys {
                Some(keys) => Some(keys.irk),
                None => None,
            };
            let watching: Vec<[u8; 6]> = Vec::new();
            assert(addresses(watching@) =~= Set::<Seq<u8>>::empty());
            let scanner = Scanner { target, irk, known, watching, state: Scanning::Target };
            Ok((scanner, Scan::Subscribe { address: target }))
        },
    }
}

impl Scanner {
    fn fail(&mut self, message: String) -> (r: Scan)
        ensures
            (final(self)@, r@) == old(self)@.fail(message@),
    {
        self.state = Scanning::Over;
        Scan::End { failure: Event::Failure(message) }
    }

    fn report(&mut self, report: Option<Event>) -> (r: Scan)
        ensures
            (final(self)@, r@) == old(self)@.report(report_of(report)),
    {
        self.state = Scanning::Waiting;
        Scan::Wait { report }
    }

    fn added(&mut self, address: [u8; 6]) -> (r: Scan)
        ensures
            (final(self)@, r@) == old(self)@.added(address@),
    {
        if recognized(address, &self.irk) && !is_listed(&self.watching, &address) {
            list(&mut self.watching, address);
            self.state = Scanning::Kind { address };
            Scan::QueryKind { address }
        } else {
            self.report(None)
        }
    }

    fn removed(&mut self, address: [u8; 6]) -> (r: Scan)
        ensures
            (final(self)@, r@) == old(self)@.removed(address@),
    {
        unlist(&mut self.watching, &address);
        if address::same(&address, &self.target) {
            self.fail("configured Bluetooth device was removed".to_owned())
        } else {
            self.report(None)
        }
    }

    /// Takes up what was told while the scanner waited.
    pub fn saw(&mut self, sight: Sight) -> (r: Scan)
        ensures
            (final(self)@, r@) == old(self)@.saw(sight),
    {
        match sight {
            Sight::Added { address } => self.added(address),
            Sight::Removed { address } => self.removed(address),
            Sight::PoweredOff => self.fail("Bluetooth adapter is powered off".to_owned()),
            Sight::Stopped => self.fail("Bluetooth LE discovery stopped".to_owned()),
            Sight::Data { address, data, at } => {
                let report = if recognized(address, &self.irk) {
                    emit_data(&data, at, true)
                } else {
                    None
                };
                self.report(report)
            },
            Sight::Connected { address, connected } => {
                let report = if address::same(&address, &self.target) {
                    Some(Event::Connected(connected))
                } else {
                    None
                };
                self.report(report)
            },
            Sight::Blocked { address, blocked } => {
                let report = if address::same(&address, &self.target) {
                    Some(Event::Blocked(blocked))
                } else {
                    None
                };
                self.report(report)
            },
            Sight::Other => self.report(None),
        }
    }

    fn cached(&mut self, address: [u8; 6], data: Option<HashMap<u16, Vec<u8>>>, at: u64) -> (r:
        Scan)
        ensures
            (final(self)@, r@) == old(self)@.cached(address@, data, at),
    {
        let report = match &data {
            Some(data) => emit_data(data, at, !is_listed(&self.known, &address)),
            None => None,
        };
        self.report(report)
    }

    /// Goes on with the answer to what was asked for.
    pub fn found(&mut self, finding: Finding) -> (r: Scan)
        ensures
            (final(self)@, r@) == old(self)@.found(finding),
    {
        let mut state = Scanning::Over;
        std::mem::swap(&mut state, &mut self.state);
        match (state, finding) {
            (Scanning::Over, _) => Scan::Wait { report: None },
            (Scanning::Waiting, _) => {
                self.state = Scanning::Waiting;
                Scan::Wait { report: None }
            },
            (_, Finding::Failed(message)) => self.fail(message),
            (Scanning::Target, Finding::Subscribed) => {
                let target = self.target;
                list(&mut self.watching, target);
                self.report(None)
            },
            (Scanning::Kind { address }, Finding::Random(true)) => {
                self.state = Scanning::Subscription { address };
                Scan::Subscribe { address }
            },
            (Scanning::Kind { .. }, Finding::Random(false)) => self.report(None),
            (Scanning::Subscription { address }, Finding::Subscribed) => {
                self.state = Scanning::Cached { address };
                Scan::QueryData { address }
            },
            (Scanning::Cached { address }, Finding::Data { data, at }) => self.cached(
                address,
                data,
                at,
            ),
            (state, _) => {
                self.state = state;
                Scan::Wait { report: None }
            },
        }
    }
}

/// Only what comes from an address under which the device hides is reported as an
/// advertisement, and as fresh only if it was received during the scan; only the
/// device under control is reported as connected or blocked.
pub proof fn reports_are_of_the_device(scanner: ScannerView, sight: Sight, finding: Finding)
    ensures
        match (scanner.saw(sight).1, sight) {
            (ScanView::Wait { report: Some(EventView::Advertisement { fresh, .. }) }, _) => {
                fresh && (sight matches Sight::Data { address, .. } && hides(
                    address@,
                    scanner.irk,
                ))
            },
            (ScanView::Wait { report: Some(EventView::Connected(_)) }, _) => {
                sight matches Sight::Connected { address, .. } && address@ == scanner.target
            },
            (ScanView::Wait { report: Some(EventView::Blocked(_)) }, _) => {
                sight matches Sight::Blocked { address, .. } && address@ == scanner.target
            },
            _ => true,
        },
        scanner.found(finding).1 matches ScanView::Wait {
            report: Some(EventView::Advertisement { fresh, .. }),
        } ==> (scanner.state matches ScanningView::Cached { address } && fresh
            == !scanner.known.contains(address)),
{
}

/// A scanner that awaits something about a device awaits it about one that it
/// watches and under whose address the device hides.
pub open spec fn follows(scanner: ScannerView) -> bool {
    match scanner.state {
        ScanningView::Kind { address } | ScanningView::Subscription { address }
        | ScanningView::Cached { address } => hides(address, scanner.irk)
            && scanner.watching.contains(address),
        _ => true,
    }
}

/// A device is subscribed to and asked about only while the device under control
/// hides under its address, and at most once until it is removed.
pub proof fn each_address_is_followed_once(scanner: ScannerView, sight: Sight, finding: Finding)
    requires
        follows(scanner),
    ensures
        follows(scanner.saw(sight).0),
        follows(scanner.found(finding).0),
        scanner.saw(sight).1 matches ScanView::QueryKind { address } ==> hides(
            address,
            scanner.irk,
        ) && !scanner.watching.contains(address) && scanner.saw(sight).0.watching.contains(address),
        forall|address: Seq<u8>|
            scanner.watching.contains(address) && !scanner.saw(sight).0.watching.contains(address)
                ==> (sight matches Sight::Removed { address: gone } && gone@ == address),
        scanner.watching.subset_of(scanner.found(finding).0.watching),
{
}

} // verus!
