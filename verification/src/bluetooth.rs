//! What the radio reports, and what is decided close to it.
use crate::address;
use crate::daemon::Outcome;
use crate::model::{PairedDevice, PairedDeviceView};
use crate::policy::{Exception, OutcomeView};
use crate::storage::failure;
use crate::text;
use vstd::prelude::*;

verus! {

/// What the radio reports to the policy. Times are in nanoseconds.
pub enum Event {
    Advertisement { data: Vec<u8>, at: u64, fresh: bool },
    Connected(bool),
    Blocked(bool),
    Ready { generation: u64, result: Result<(), String> },
    Failure(String),
    AudioWarning { generation: u64, message: String },
}

#[verifier::ext_equal]
pub enum EventView {
    Advertisement { data: Seq<u8>, at: u64, fresh: bool },
    Connected(bool),
    Blocked(bool),
    Ready { generation: u64, failure: Option<Seq<char>> },
    Failure(Seq<char>),
    AudioWarning { generation: u64, message: Seq<char> },
}

impl View for Event {
    type V = EventView;

    open spec fn view(&self) -> EventView {
        match self {
            Event::Advertisement { data, at, fresh } => EventView::Advertisement {
                data: data@,
                at: *at,
                fresh: *fresh,
            },
            Event::Connected(connected) => EventView::Connected(*connected),
            Event::Blocked(blocked) => EventView::Blocked(*blocked),
            Event::Ready { generation, result } => EventView::Ready {
                generation: *generation,
                failure: failure(*result),
            },
            Event::Failure(message) => EventView::Failure(message@),
            Event::AudioWarning { generation, message } => EventView::AudioWarning {
                generation: *generation,
                message: message@,
            },
        }
    }
}

/// The search for the adapter: `Default` wants the system's own, `List` the
/// adapters, `Read` the address of one of them by its place in the list.
pub enum Search {
    Default,
    List { wanted: [u8; 6] },
    Read { wanted: [u8; 6], index: usize, count: usize },
    Found { index: usize },
    Failed(String),
}

#[verifier::ext_equal]
pub enum SearchView {
    Default,
    List { wanted: Seq<u8> },
    Read { wanted: Seq<u8>, index: int, count: int },
    Found { index: int },
    Failed(Seq<char>),
}

impl View for Search {
    type V = SearchView;

    open spec fn view(&self) -> SearchView {
        match self {
            Search::Default => SearchView::Default,
            Search::List { wanted } => SearchView::List { wanted: wanted@ },
            Search::Read { wanted, index, count } => SearchView::Read {
                wanted: wanted@,
                index: *index as int,
                count: *count as int,
            },
            Search::Found { index } => SearchView::Found { index: *index as int },
            Search::Failed(message) => SearchView::Failed(message@),
        }
    }
}

impl SearchView {
    pub open spec fn start(configured: Option<Seq<char>>) -> SearchView {
        match configured {
            None => SearchView::Default,
            Some(adapter) => match address::parsed(adapter) {
                Ok(wanted) => SearchView::List { wanted },
                Err(message) => SearchView::Failed(message),
            },
        }
    }

    /// Goes on with the adapter at `index`, if there is one.
    pub open spec fn at(wanted: Seq<u8>, index: int, count: int) -> SearchView {
        if index < count {
            SearchView::Read { wanted, index, count }
        } else {
            SearchView::Failed("configured Bluetooth adapter is unavailable"@)
        }
    }

    pub open spec fn listed(self, count: Result<int, Seq<char>>) -> SearchView {
        match (self, count) {
            (SearchView::List { wanted }, Ok(count)) => SearchView::at(wanted, 0, count),
            (SearchView::List { .. }, Err(message)) => SearchView::Failed(message),
            _ => self,
        }
    }

    pub open spec fn read(self, address: Result<Seq<u8>, Seq<char>>) -> SearchView {
        match (self, address) {
            (SearchView::Read { wanted, index, count }, Ok(address)) => if address == wanted {
                SearchView::Found { index }
            } else {
                SearchView::at(wanted, index + 1, count)
            },
            (SearchView::Read { .. }, Err(message)) => SearchView::Failed(message),
            _ => self,
        }
    }
}

/// The address that an adapter told, or why it did not.
pub open spec fn told(address: Result<[u8; 6], String>) -> Result<Seq<u8>, Seq<char>> {
    match address {
        Ok(address) => Ok(address@),
        Err(message) => Err(message@),
    }
}

/// Begins the search for the configured adapter.
pub fn adapter(configured: Option<&str>) -> (r: Search)
    ensures
        r@ == SearchView::start(
            match configured {
                Some(adapter) => Some(adapter@),
                None => None,
            },
        ),
{
    match configured {
        None => Search::Default,
        Some(adapter) => match address::parse(adapter) {
            Ok(wanted) => Search::List { wanted },
            Err(message) => Search::Failed(message),
        },
    }
}

impl Search {
    fn at(wanted: [u8; 6], index: usize, count: usize) -> (r: Search)
        ensures
            r@ == SearchView::at(wanted@, index as int, count as int),
    {
        if index < count {
            Search::Read { wanted, index, count }
        } else {
            Search::Failed("configured Bluetooth adapter is unavailable".to_owned())
        }
    }

    /// Goes on once it is known how many adapters there are.
    pub fn listed(self, count: Result<usize, String>) -> (r: Search)
        ensures
            r@ == self@.listed(
                match count {
                    Ok(count) => Ok(count as int),
                    Err(message) => Err(message@),
                },
            ),
    {
        match (self, count) {
            (Search::List { wanted }, Ok(count)) => Search::at(wanted, 0, count),
            (Search::List { .. }, Err(message)) => Search::Failed(message),
            (search, _) => search,
        }
    }

    /// Goes on once an adapter has told its address.
    pub fn read(self, address: Result<[u8; 6], String>) -> (r: Search)
        ensures
            r@ == self@.read(told(address)),
    {
        match (self, address) {
            (Search::Read { wanted, index, count }, Ok(address)) => {
                if address::same(&address, &wanted) {
                    Search::Found { index }
                } else if index < count {
                    Search::at(wanted, index + 1, count)
                } else {
                    Search::Failed("configured Bluetooth adapter is unavailable".to_owned())
                }
            },
            (Search::Read { .. }, Err(message)) => Search::Failed(message),
            (search, _) => search,
        }
    }
}

/// Where a search among adapters that tell `addresses` stands after the first
/// `n` of them were read.
pub open spec fn searched(
    wanted: Seq<u8>,
    addresses: Seq<Result<Seq<u8>, Seq<char>>>,
    n: nat,
) -> SearchView
    decreases n,
{
    if n == 0 {
        SearchView::List { wanted }.listed(Ok(addresses.len() as int))
    } else {
        searched(wanted, addresses, (n - 1) as nat).read(addresses[n - 1])
    }
}

/// The search finds the first adapter that has the wanted address and fails where
/// none has it; an adapter before it that cannot be read ends the search.
pub proof fn the_first_adapter_with_the_address_is_found(
    wanted: Seq<u8>,
    addresses: Seq<Result<Seq<u8>, Seq<char>>>,
    index: int,
)
    requires
        0 <= index <= addresses.len(),
        forall|i: int|
            0 <= i < index ==> (#[trigger] addresses[i] matches Ok(address) && address != wanted),
    ensures
        searched(wanted, addresses, index as nat) == SearchView::at(
            wanted,
            index,
            addresses.len() as int,
        ),
        index < addresses.len() && addresses[index] == Ok::<Seq<u8>, Seq<char>>(wanted)
            ==> searched(wanted, addresses, (index + 1) as nat) == (SearchView::Found { index }),
        index < addresses.len() ==> (addresses[index] matches Err(message) ==> searched(
            wanted,
            addresses,
            (index + 1) as nat,
        ) == SearchView::Failed(message)),
    decreases index,
{
    if index > 0 {
        the_first_adapter_with_the_address_is_found(wanted, addresses, index - 1);
        assert(addresses[index - 1] is Ok);
    }
}

/// A device that the adapter knows.
pub struct Seen {
    pub address: [u8; 6],
    pub paired: bool,
    pub name: Option<String>,
}

impl Seen {
    /// How a paired device is listed; without a name, by its address.
    pub open spec fn device(self) -> PairedDeviceView {
        PairedDeviceView {
            address: address::written(self.address@),
            name: match self.name {
                Some(name) => name@,
                None => address::written(self.address@),
            },
        }
    }
}

/// The devices among those seen that are paired.
pub open spec fn paired_among(seen: Seq<Seen>) -> Seq<PairedDeviceView>
    decreases seen.len(),
{
    if seen.len() == 0 {
        Seq::empty()
    } else {
        let rest = paired_among(seen.drop_last());
        if seen.last().paired {
            rest.push(seen.last().device())
        } else {
            rest
        }
    }
}

/// `a` may stand before `b` in the list: names decide, then addresses.
pub open spec fn in_order(a: PairedDeviceView, b: PairedDeviceView) -> bool {
    text::before(a.name, b.name) || (a.name == b.name && !text::before(b.address, a.address))
}

proof fn order_is_total(a: PairedDeviceView, b: PairedDeviceView)
    ensures
        in_order(a, b) || in_order(b, a),
        in_order(a, a),
{
    text::before_is_total(a.name, b.name);
    text::before_is_total(a.address, b.address);
    text::before_is_total(a.address, a.address);
}

proof fn order_is_transitive(a: PairedDeviceView, b: PairedDeviceView, c: PairedDeviceView)
    requires
        in_order(a, b),
        in_order(b, c),
    ensures
        in_order(a, c),
{
    text::before_is_total(a.name, b.name);
    text::before_is_total(b.name, c.name);
    if a.name == b.name && b.name == c.name {
        text::before_is_total(a.address, b.address);
        text::before_is_total(b.address, c.address);
        text::before_is_total(a.address, c.address);
        if text::before(c.address, a.address) {
            if a.address == b.address {
            } else if b.address == c.address {
            } else {
                text::before_is_transitive(a.address, b.address, c.address);
            }
        }
    } else if text::before(a.name, b.name) && text::before(b.name, c.name) {
        text::before_is_transitive(a.name, b.name, c.name);
    }
}

fn ordered(a: &PairedDevice, b: &PairedDevice) -> (r: bool)
    ensures
        r == in_order(a@, b@),
{
    if text::precedes(a.name.as_str(), b.name.as_str()) {
        true
    } else {
        text::same(a.name.as_str(), b.name.as_str()) && !text::precedes(
            b.address.as_str(),
            a.address.as_str(),
        )
    }
}

pub open spec fn sorted(devices: Seq<PairedDeviceView>) -> bool {
    forall|i: int, j: int| 0 <= i < j < devices.len() ==> in_order(devices[i], devices[j])
}

/// Puts a device where it belongs.
fn insert(devices: &mut Vec<PairedDevice>, device: PairedDevice)
    requires
        sorted(old(devices).deep_view()),
        old(devices).len() < usize::MAX,
    ensures
        sorted(final(devices).deep_view()),
        final(devices).deep_view().to_multiset() == old(devices).deep_view().to_multiset().insert(
            device@,
        ),
        final(devices).len() == old(devices).len() + 1,
{
    let ghost before = devices.deep_view();
    let mut place: usize = devices.len();
    while place > 0 && !ordered(&devices[place - 1], &device)
        invariant
            place <= devices.len(),
            devices.deep_view() == before,
            forall|i: int| place <= i < devices.len() ==> !in_order(#[trigger] before[i], device@),
        decreases place,
    {
        place = place - 1;
    }
    proof {
        assert forall|i: int| 0 <= i < place implies in_order(#[trigger] before[i], device@) by {
            if i < place - 1 {
                order_is_transitive(before[i], before[place - 1], device@);
            }
        }
        assert forall|i: int| place <= i < before.len() implies in_order(
            device@,
            #[trigger] before[i],
        ) by {
            order_is_total(device@, before[i]);
        }
    }
    let ghost added = device@;
    devices.insert(place, device);
    proof {
        let after = devices.deep_view();
        assert(after =~= before.insert(place as int, added));
        vstd::seq_lib::to_multiset_insert(before, place as int, added);
        assert forall|i: int, j: int| 0 <= i < j < after.len() implies in_order(
            after[i],
            after[j],
        ) by {
            let x = if i < place { i } else { i - 1 };
            let y = if j < place { j } else { j - 1 };
            if i != place && j != place {
                assert(in_order(before[x], before[y]));
            }
        }
    }
}

/// The paired devices, by name and then by address.
pub fn paired(seen: Vec<Seen>) -> (r: Vec<PairedDevice>)
    ensures
        r.deep_view().to_multiset() == paired_among(seen@).to_multiset(),
        sorted(r.deep_view()),
{
    let ghost all = seen@;
    let total: usize = seen.len();
    let mut devices: Vec<PairedDevice> = Vec::with_capacity(total);
    assert(devices.deep_view() =~= Seq::<PairedDeviceView>::empty());
    for device in it: seen
        invariant
            it.seq() == all,
            devices.len() <= it.index(),
            it.index() <= all.len(),
            all.len() == total,
            sorted(devices.deep_view()),
            devices.deep_view().to_multiset() == paired_among(
                all.take(it.index() as int),
            ).to_multiset(),
    {
        assert(device == all[it.index() as int]);
        assert(all.take(it.index() + 1).drop_last() =~= all.take(it.index() as int));
        if device.paired {
            let address = address::write(device.address);
            let name = match device.name {
                Some(name) => name,
                None => address.clone(),
            };
            let added = PairedDevice { address, name };
            proof {
                vstd::seq_lib::to_multiset_build(
                    paired_among(all.take(it.index() as int)),
                    added@,
                );
            }
            insert(&mut devices, added);
        }
    }
    assert(all.take(all.len() as int) =~= all);
    devices
}

/// What is done next to block a device and to make sure of it. `Finished` carries
/// the result.
pub enum Guard {
    Block { address: [u8; 6] },
    Disconnect { address: [u8; 6] },
    QueryBlocked { address: [u8; 6], disconnected: Result<(), String> },
    QueryConnected { address: [u8; 6], disconnected: Result<(), String> },
    Finished(Result<(), String>),
}

#[verifier::ext_equal]
pub enum GuardView {
    Block { address: Seq<u8> },
    Disconnect { address: Seq<u8> },
    QueryBlocked { address: Seq<u8>, disconnected: Option<Seq<char>> },
    QueryConnected { address: Seq<u8>, disconnected: Option<Seq<char>> },
    Finished(Option<Seq<char>>),
}

impl View for Guard {
    type V = GuardView;

    open spec fn view(&self) -> GuardView {
        match self {
            Guard::Block { address } => GuardView::Block { address: address@ },
            Guard::Disconnect { address } => GuardView::Disconnect { address: address@ },
            Guard::QueryBlocked { address, disconnected } => GuardView::QueryBlocked {
                address: address@,
                disconnected: failure(*disconnected),
            },
            Guard::QueryConnected { address, disconnected } => GuardView::QueryConnected {
                address: address@,
                disconnected: failure(*disconnected),
            },
            Guard::Finished(result) => GuardView::Finished(failure(*result)),
        }
    }
}

/// The flag that a device told, or why it did not.
pub open spec fn flag(told: Result<bool, String>) -> Result<bool, Seq<char>> {
    match told {
        Ok(flag) => Ok(flag),
        Err(message) => Err(message@),
    }
}

impl GuardView {
    pub open spec fn start(device: Seq<char>) -> GuardView {
        match address::parsed(device) {
            Ok(address) => GuardView::Block { address },
            Err(message) => GuardView::Finished(Some(message)),
        }
    }

    /// Blocking comes first and closes the race with an incoming connection. That
    /// a disconnection failed matters only if the device is still connected.
    pub open spec fn acted(self, outcome: Option<Seq<char>>) -> GuardView {
        match (self, outcome) {
            (GuardView::Block { address }, None) => GuardView::Disconnect { address },
            (GuardView::Block { .. }, Some(message)) => GuardView::Finished(
                Some("cannot install device connection guard: "@ + message),
            ),
            (GuardView::Disconnect { address }, disconnected) => GuardView::QueryBlocked {
                address,
                disconnected,
            },
            _ => self,
        }
    }

    pub open spec fn told(self, flag: Result<bool, Seq<char>>) -> GuardView {
        match (self, flag) {
            (GuardView::QueryBlocked { address, disconnected }, Ok(true)) => {
                GuardView::QueryConnected { address, disconnected }
            },
            (GuardView::QueryBlocked { disconnected, .. }, Ok(false)) => GuardView::unconfirmed(
                disconnected,
            ),
            (GuardView::QueryConnected { .. }, Ok(false)) => GuardView::Finished(None),
            (GuardView::QueryConnected { disconnected, .. }, Ok(true)) => GuardView::unconfirmed(
                disconnected,
            ),
            (GuardView::QueryBlocked { .. }, Err(message))
            | (GuardView::QueryConnected { .. }, Err(message)) => GuardView::Finished(
                Some(message),
            ),
            _ => self,
        }
    }

    pub open spec fn unconfirmed(disconnected: Option<Seq<char>>) -> GuardView {
        GuardView::Finished(
            Some(
                match disconnected {
                    Some(message) => "cannot disconnect guarded device: "@ + message,
                    None => "device connection guard could not be confirmed"@,
                },
            ),
        )
    }
}

/// Begins to block the device that a text names.
pub fn block(device: &str) -> (r: Guard)
    ensures
        r@ == GuardView::start(device@),
{
    match address::parse(device) {
        Ok(address) => Guard::Block { address },
        Err(message) => Guard::Finished(Err(message)),
    }
}

impl Guard {
    /// Goes on once something was done.
    pub fn acted(self, outcome: Result<(), String>) -> (r: Guard)
        ensures
            r@ == self@.acted(failure(outcome)),
    {
        match (self, outcome) {
            (Guard::Block { address }, Ok(_)) => Guard::Disconnect { address },
            (Guard::Block { .. }, Err(message)) => Guard::Finished(
                Err(text::join("cannot install device connection guard: ", message.as_str())),
            ),
            (Guard::Disconnect { address }, disconnected) => Guard::QueryBlocked {
                address,
                disconnected,
            },
            (guard, _) => guard,
        }
    }

    /// Goes on once the device has told what was asked.
    pub fn told(self, told: Result<bool, String>) -> (r: Guard)
        ensures
            r@ == self@.told(flag(told)),
    {
        match (self, told) {
            (Guard::QueryBlocked { address, disconnected }, Ok(true)) => Guard::QueryConnected {
                address,
                disconnected,
            },
            (Guard::QueryBlocked { disconnected, .. }, Ok(false)) => Guard::unconfirmed(
                disconnected,
            ),
            (Guard::QueryConnected { .. }, Ok(false)) => Guard::Finished(Ok(())),
            (Guard::QueryConnected { disconnected, .. }, Ok(true)) => Guard::unconfirmed(
                disconnected,
            ),
            (Guard::QueryBlocked { .. }, Err(message)) => Guard::Finished(Err(message)),
            (Guard::QueryConnected { .. }, Err(message)) => Guard::Finished(Err(message)),
            (guard, _) => guard,
        }
    }

    fn unconfirmed(disconnected: Result<(), String>) -> (r: Guard)
        ensures
            r@ == GuardView::unconfirmed(failure(disconnected)),
    {
        Guard::Finished(
            Err(
                match disconnected {
                    Err(message) => text::join(
                        "cannot disconnect guarded device: ",
                        message.as_str(),
                    ),
                    Ok(_) => "device connection guard could not be confirmed".to_owned(),
                },
            ),
        )
    }
}

/// A guard counts as installed exactly when the device could be blocked and then
/// says that it is blocked and not connected, whether or not it had to be
/// disconnected.
pub proof fn a_guard_is_confirmed_by_the_device(
    device: Seq<char>,
    set: Option<Seq<char>>,
    disconnected: Option<Seq<char>>,
    blocked: Result<bool, Seq<char>>,
    connected: Result<bool, Seq<char>>,
)
    ensures
        GuardView::start(device).acted(set).acted(disconnected).told(blocked).told(connected)
            == GuardView::Finished(None) <==> {
            &&& address::parsed(device) is Ok
            &&& set is None
            &&& blocked == Ok::<bool, Seq<char>>(true)
            &&& connected == Ok::<bool, Seq<char>>(false)
        },
{
}

/// How a write to the control channel ended.
pub enum Write {
    Wrote(usize),
    TimedOut(String),
    Failed(String),
}

/// What is wrong with a write of a packet of that length, if anything is.
pub open spec fn shortfall(length: usize, write: Write) -> Option<Seq<char>> {
    match write {
        Write::Wrote(count) => if count == length {
            None
        } else {
            Some("short AAP packet write"@)
        },
        Write::TimedOut(message) => Some("AAP write timed out: "@ + message@),
        Write::Failed(message) => Some(message@),
    }
}

/// Whether a packet of that length was sent whole.
pub fn send(length: usize, write: Write) -> (r: Result<(), String>)
    ensures
        failure(r) == shortfall(length, write),
        failure(r) == match write {
            Write::Wrote(count) => if count == length {
                None
            } else {
                Some("short AAP packet write"@)
            },
            Write::TimedOut(message) => Some("AAP write timed out: "@ + message@),
            Write::Failed(message) => Some(message@),
        },
{
    match write {
        Write::Wrote(count) => if count == length {
            Ok(())
        } else {
            Err("short AAP packet write".to_owned())
        },
        Write::TimedOut(message) => Err(text::join("AAP write timed out: ", message.as_str())),
        Write::Failed(message) => Err(message),
    }
}

/// How a step ended that may take too long.
pub enum Ended {
    Done,
    TimedOut(String),
    Failed(String),
}

#[verifier::ext_equal]
pub enum EndedView {
    Done,
    TimedOut(Seq<char>),
    Failed(Seq<char>),
}

impl View for Ended {
    type V = EndedView;

    open spec fn view(&self) -> EndedView {
        match self {
            Ended::Done => EndedView::Done,
            Ended::TimedOut(message) => EndedView::TimedOut(message@),
            Ended::Failed(message) => EndedView::Failed(message@),
        }
    }
}

/// What is done next to link up with a device: connect to it, make a socket,
/// open the control channel, greet, and ask for notifications.
pub enum Link {
    Device { address: [u8; 6] },
    Socket { address: [u8; 6] },
    Channel { address: [u8; 6] },
    Handshake,
    Notifications,
    Attached,
    Failed(String),
}

#[verifier::ext_equal]
pub enum LinkView {
    Device { address: Seq<u8> },
    Socket { address: Seq<u8> },
    Channel { address: Seq<u8> },
    Handshake,
    Notifications,
    Attached,
    Failed(Seq<char>),
}

impl View for Link {
    type V = LinkView;

    open spec fn view(&self) -> LinkView {
        match self {
            Link::Device { address } => LinkView::Device { address: address@ },
            Link::Socket { address } => LinkView::Socket { address: address@ },
            Link::Channel { address } => LinkView::Channel { address: address@ },
            Link::Handshake => LinkView::Handshake,
            Link::Notifications => LinkView::Notifications,
            Link::Attached => LinkView::Attached,
            Link::Failed(message) => LinkView::Failed(message@),
        }
    }
}

impl LinkView {
    pub open spec fn start(device: Seq<char>) -> LinkView {
        match address::parsed(device) {
            Ok(address) => LinkView::Device { address },
            Err(message) => LinkView::Failed(message),
        }
    }

    pub open spec fn after(self, ended: EndedView) -> LinkView {
        match (self, ended) {
            (LinkView::Device { address }, EndedView::Done) => LinkView::Socket { address },
            (LinkView::Device { .. }, EndedView::TimedOut(message))
            | (LinkView::Device { .. }, EndedView::Failed(message)) => LinkView::Failed(
                "Bluetooth connection failed: "@ + message,
            ),
            (LinkView::Socket { address }, EndedView::Done) => LinkView::Channel { address },
            (LinkView::Channel { .. }, EndedView::Done) => LinkView::Handshake,
            (LinkView::Channel { .. }, EndedView::TimedOut(message)) => LinkView::Failed(
                "AAP connect timed out: "@ + message,
            ),
            (LinkView::Channel { .. }, EndedView::Failed(message)) => LinkView::Failed(
                "AAP control channel unavailable: "@ + message,
            ),
            (LinkView::Handshake, EndedView::Done) => LinkView::Notifications,
            (LinkView::Notifications, EndedView::Done) => LinkView::Attached,
            (LinkView::Attached, _) | (LinkView::Failed(_), _) => self,
            (_, EndedView::TimedOut(message)) | (_, EndedView::Failed(message)) => LinkView::Failed(
                message,
            ),
        }
    }
}

/// Begins to connect to the device that a text names.
pub fn connect(device: &str) -> (r: Link)
    ensures
        r@ == LinkView::start(device@),
{
    match address::parse(device) {
        Ok(address) => Link::Device { address },
        Err(message) => Link::Failed(message),
    }
}

/// Begins to open the control channel of a device that is connected.
pub fn attach(address: [u8; 6]) -> (r: Link)
    ensures
        r@ == (LinkView::Socket { address: address@ }),
{
    Link::Socket { address }
}

impl Link {
    /// The step that follows.
    pub fn after(self, ended: Ended) -> (r: Link)
        ensures
            r@ == self@.after(ended@),
    {
        match (self, ended) {
            (Link::Device { address }, Ended::Done) => Link::Socket { address },
            (Link::Device { .. }, Ended::TimedOut(message)) => Link::Failed(
                text::join("Bluetooth connection failed: ", message.as_str()),
            ),
            (Link::Device { .. }, Ended::Failed(message)) => Link::Failed(
                text::join("Bluetooth connection failed: ", message.as_str()),
            ),
            (Link::Socket { address }, Ended::Done) => Link::Channel { address },
            (Link::Channel { .. }, Ended::Done) => Link::Handshake,
            (Link::Channel { .. }, Ended::TimedOut(message)) => Link::Failed(
                text::join("AAP connect timed out: ", message.as_str()),
            ),
            (Link::Channel { .. }, Ended::Failed(message)) => Link::Failed(
                text::join("AAP control channel unavailable: ", message.as_str()),
            ),
            (Link::Handshake, Ended::Done) => Link::Notifications,
            (Link::Notifications, Ended::Done) => Link::Attached,
            (Link::Attached, _) => Link::Attached,
            (Link::Failed(message), _) => Link::Failed(message),
            (_, Ended::TimedOut(message)) => Link::Failed(message),
            (_, Ended::Failed(message)) => Link::Failed(message),
        }
    }
}

/// The steps of a link when each of the first ones ended as told.
pub open spec fn linked(start: LinkView, ends: Seq<EndedView>) -> LinkView
    decreases ends.len(),
{
    if ends.len() == 0 {
        start
    } else {
        linked(start, ends.drop_last()).after(ends.last())
    }
}

/// Where the opening of a control channel stands after `n` steps that succeeded.
pub open spec fn attachment(address: Seq<u8>, n: int) -> LinkView {
    if n == 0 {
        LinkView::Socket { address }
    } else if n == 1 {
        LinkView::Channel { address }
    } else if n == 2 {
        LinkView::Handshake
    } else if n == 3 {
        LinkView::Notifications
    } else {
        LinkView::Attached
    }
}

/// A device counts as attached once a socket was made, its channel was opened and
/// the two greetings were sent, in this order; a step that fails ends it.
pub proof fn attachment_takes_every_step(address: Seq<u8>, ends: Seq<EndedView>)
    ensures
        if forall|i: int| 0 <= i < ends.len() && i < 4 ==> #[trigger] ends[i] is Done {
            linked(LinkView::Socket { address }, ends) == attachment(address, ends.len() as int)
        } else {
            linked(LinkView::Socket { address }, ends) is Failed
        },
    decreases ends.len(),
{
    if ends.len() > 0 {
        let start = ends.drop_last();
        attachment_takes_every_step(address, start);
        assert(forall|i: int| 0 <= i < start.len() ==> #[trigger] start[i] == ends[i]);
        let done = |all: Seq<EndedView>|
            forall|i: int| 0 <= i < all.len() && i < 4 ==> #[trigger] all[i] is Done;
        if done(ends) {
            assert(done(start));
        } else if done(start) {
            let i = choose|i: int| 0 <= i < ends.len() && i < 4 && !(#[trigger] ends[i] is Done);
            if i < start.len() {
                assert(start[i] is Done);
            }
        }
    }
}

/// What is reported of a connection that was asked for.
pub open spec fn readiness(generation: u64, result: Option<Option<Seq<char>>>) -> EventView {
    EventView::Ready {
        generation,
        failure: match result {
            Some(failure) => failure,
            None => Some("Bluetooth connection timed out"@),
        },
    }
}

/// The report on a connection that was asked for; `None` is one that took too long.
pub fn connection_ended(generation: u64, result: Option<Result<(), String>>) -> (r: Event)
    ensures
        r@ == readiness(
            generation,
            match result {
                Some(result) => Some(failure(result)),
                None => None,
            },
        ),
        r@ == (EventView::Ready {
            generation,
            failure: match result {
                Some(result) => failure(result),
                None => Some("Bluetooth connection timed out"@),
            },
        }),
{
    match result {
        Some(result) => Event::Ready { generation, result },
        None => Event::Ready {
            generation,
            result: Err("Bluetooth connection timed out".to_owned()),
        },
    }
}

/// What a step of the setup exception is answered with.
pub open spec fn exception_outcome(step: Exception, ended: EndedView) -> OutcomeView {
    match ended {
        EndedView::Done => OutcomeView::Done,
        EndedView::TimedOut(message) => OutcomeView::Failed(
            "setup timed out waiting for valid proximity keys: "@ + message,
        ),
        EndedView::Failed(message) => OutcomeView::Failed(
            if step is Connect {
                "setup Bluetooth connection failed: "@ + message
            } else {
                message
            },
        ),
    }
}

/// The outcome of a step of the setup exception.
pub fn exception_ended(step: Exception, ended: Ended) -> (r: Outcome)
    ensures
        r@ == exception_outcome(step, ended@),
        r@ == match ended@ {
            EndedView::Done => OutcomeView::Done,
            EndedView::TimedOut(message) => OutcomeView::Failed(
                "setup timed out waiting for valid proximity keys: "@ + message,
            ),
            EndedView::Failed(message) => OutcomeView::Failed(
                match step {
                    Exception::Connect => "setup Bluetooth connection failed: "@ + message,
                    _ => message,
                },
            ),
        },
{
    match ended {
        Ended::Done => Outcome::Done,
        Ended::TimedOut(message) => Outcome::Failed(
            text::join("setup timed out waiting for valid proximity keys: ", message.as_str()),
        ),
        Ended::Failed(message) => Outcome::Failed(
            match step {
                Exception::Connect => text::join(
                    "setup Bluetooth connection failed: ",
                    message.as_str(),
                ),
                _ => message,
            },
        ),
    }
}

} // verus!
