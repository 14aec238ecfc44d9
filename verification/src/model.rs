//! What is known of the earbuds, and the snapshot that clients see.
use vstd::prelude::*;

verus! {

/// Charge of one component. Both fields are known, or neither is.
#[derive(Clone, Copy, Debug, PartialEq)]
pub struct Cell {
    pub percent: Option<u8>,
    pub charging: Option<bool>,
}

pub open spec fn unknown_cell() -> Cell {
    Cell { percent: None, charging: None }
}

impl Cell {
    /// A percentage up to one hundred with a charging flag, or nothing at all.
    pub open spec fn valid(self) -> bool {
        &&& self.percent is Some <==> self.charging is Some
        &&& self.percent matches Some(percent) ==> percent <= 100
    }
}

impl Default for Cell {
    fn default() -> (r: Self)
        ensures
            r == unknown_cell(),
    {
        Cell { percent: None, charging: None }
    }
}

/// Charge of both earbuds and their case.
#[derive(Clone, Copy, Debug, PartialEq)]
pub struct Battery {
    pub left: Cell,
    pub right: Cell,
    pub case: Cell,
}

pub open spec fn unknown_battery() -> Battery {
    Battery { left: unknown_cell(), right: unknown_cell(), case: unknown_cell() }
}

impl Battery {
    pub open spec fn valid(self) -> bool {
        self.left.valid() && self.right.valid() && self.case.valid()
    }
}

impl Default for Battery {
    fn default() -> (r: Self)
        ensures
            r == unknown_battery(),
    {
        Battery { left: Cell::default(), right: Cell::default(), case: Cell::default() }
    }
}

/// A listening mode.
#[derive(Clone, Copy, Debug, PartialEq, Eq, Structural)]
pub enum Mode {
    Off,
    Anc,
    Transparency,
    Adaptive,
}

impl Mode {
    /// The number that stands for the mode on the wire.
    pub open spec fn code(self) -> u8 {
        match self {
            Mode::Off => 1,
            Mode::Anc => 2,
            Mode::Transparency => 3,
            Mode::Adaptive => 4,
        }
    }

    /// The mode that a number stands for.
    pub open spec fn decoded(v: u8) -> Option<Mode> {
        if v == 1 {
            Some(Mode::Off)
        } else if v == 2 {
            Some(Mode::Anc)
        } else if v == 3 {
            Some(Mode::Transparency)
        } else if v == 4 {
            Some(Mode::Adaptive)
        } else {
            None
        }
    }

    pub fn value(self) -> (r: u8)
        ensures
            r == self.code(),
    {
        match self {
            Mode::Off => 1,
            Mode::Anc => 2,
            Mode::Transparency => 3,
            Mode::Adaptive => 4,
        }
    }

    pub fn from_value(v: u8) -> (r: Option<Self>)
        ensures
            r == Mode::decoded(v),
    {
        match v {
            1 => Some(Mode::Off),
            2 => Some(Mode::Anc),
            3 => Some(Mode::Transparency),
            4 => Some(Mode::Adaptive),
            _ => None,
        }
    }
}

/// Each mode is read back from its number, and each number that is read as a
/// mode is the number of that mode.
pub proof fn mode_codes_are_exact(mode: Mode, v: u8)
    ensures
        Mode::decoded(mode.code()) == Some(mode),
        Mode::decoded(v) matches Some(m) ==> m.code() == v,
{
}

/// A device that is paired with the adapter.
#[derive(Debug)]
pub struct PairedDevice {
    pub address: String,
    pub name: String,
}

#[verifier::ext_equal]
pub struct PairedDeviceView {
    pub address: Seq<char>,
    pub name: Seq<char>,
}

impl View for PairedDevice {
    type V = PairedDeviceView;

    open spec fn view(&self) -> PairedDeviceView {
        PairedDeviceView { address: self.address@, name: self.name@ }
    }
}

impl DeepView for PairedDevice {
    type V = PairedDeviceView;

    open spec fn deep_view(&self) -> PairedDeviceView {
        self@
    }
}

impl Clone for PairedDevice {
    fn clone(&self) -> (r: Self)
        ensures
            r@ == self@,
    {
        PairedDevice { address: self.address.clone(), name: self.name.clone() }
    }
}

/// The left and the right ear: in the ear, out of it, or not known.
pub type Ears = (Option<bool>, Option<bool>);

/// The two ears of an array.
pub open spec fn ears_of(ears: [Option<bool>; 2]) -> Ears {
    (ears[0], ears[1])
}

pub open spec fn unknown_ears() -> Ears {
    (None, None)
}

/// Both buds are known to be out.
pub open spec fn both_out(ears: Ears) -> bool {
    ears == (Some(false), Some(false))
}

/// At least one bud is known to be in.
pub open spec fn worn(ears: Ears) -> bool {
    ears.0 == Some(true) || ears.1 == Some(true)
}

/// The state that clients of the daemon see.
#[derive(Debug)]
pub struct Snapshot {
    pub schema: u8,
    pub configured: bool,
    pub status: String,
    pub name: String,
    pub connected: bool,
    /// Physical left and right from advertisements while idle, or from the order
    /// of the battery entries during a live session. Unknown until that session
    /// establishes the order.
    pub in_ear: [Option<bool>; 2],
    pub battery: Battery,
    pub mode: Option<Mode>,
    pub error: Option<String>,
    pub paired_devices: Vec<PairedDevice>,
}

#[verifier::ext_equal]
pub struct SnapshotView {
    pub schema: u8,
    pub configured: bool,
    pub status: Seq<char>,
    pub name: Seq<char>,
    pub connected: bool,
    pub in_ear: Ears,
    pub battery: Battery,
    pub mode: Option<Mode>,
    pub error: Option<Seq<char>>,
    pub paired_devices: Seq<PairedDeviceView>,
}

impl View for Snapshot {
    type V = SnapshotView;

    open spec fn view(&self) -> SnapshotView {
        SnapshotView {
            schema: self.schema,
            configured: self.configured,
            status: self.status@,
            name: self.name@,
            connected: self.connected,
            in_ear: ears_of(self.in_ear),
            battery: self.battery,
            mode: self.mode,
            error: self.error.deep_view(),
            paired_devices: self.paired_devices.deep_view(),
        }
    }
}

impl Clone for Snapshot {
    fn clone(&self) -> (r: Self)
        ensures
            r@ == self@,
    {
        let mut paired_devices: Vec<PairedDevice> = Vec::new();
        for i in 0..self.paired_devices.len()
            invariant
                paired_devices@.len() == i,
                forall|j: int| 0 <= j < i ==> #[trigger] paired_devices@[j]@ == self.paired_devices@[j]@,
        {
            paired_devices.push(self.paired_devices[i].clone());
        }
        assert(paired_devices.deep_view() =~= self.paired_devices.deep_view());
        Snapshot {
            schema: self.schema,
            configured: self.configured,
            status: self.status.clone(),
            name: self.name.clone(),
            connected: self.connected,
            in_ear: self.in_ear,
            battery: self.battery,
            mode: self.mode,
            error: self.error.clone(),
            paired_devices,
        }
    }
}

/// Nothing is set up and nothing is known.
pub open spec fn initial_snapshot() -> SnapshotView {
    SnapshotView {
        schema: 1,
        configured: false,
        status: "setup_required"@,
        name: "AirPods"@,
        connected: false,
        in_ear: unknown_ears(),
        battery: unknown_battery(),
        mode: None,
        error: None,
        paired_devices: Seq::empty(),
    }
}

impl Default for Snapshot {
    fn default() -> (r: Self)
        ensures
            r@ == initial_snapshot(),
    {
        Snapshot {
            schema: 1,
            configured: false,
            status: "setup_required".to_owned(),
            name: "AirPods".to_owned(),
            connected: false,
            in_ear: [None, None],
            battery: Battery::default(),
            mode: None,
            error: None,
            paired_devices: Vec::new(),
        }
    }
}

/// Whether at least one bud is known to be in the ear.
pub fn wearing(ears: [Option<bool>; 2]) -> (r: bool)
    ensures
        r == worn(ears_of(ears)),
{
    is_in(ears[0]) || is_in(ears[1])
}

fn is_in(ear: Option<bool>) -> (r: bool)
    ensures
        r == (ear == Some(true)),
{
    match ear {
        Some(inside) => inside,
        None => false,
    }
}

/// Whether both buds are known to be out of the ear.
pub fn removed(ears: [Option<bool>; 2]) -> (r: bool)
    ensures
        r == both_out(ears_of(ears)),
{
    match (ears[0], ears[1]) {
        (Some(left), Some(right)) => !left && !right,
        _ => false,
    }
}

} // verus!
