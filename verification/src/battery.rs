//! Battery readings: the state reported by the power supply, and the
//! arithmetic that turns raw energy or charge readings into a percentage.
//! Reading the power-supply files themselves is left to the unverified
//! shell, which hands the file contents in as plain values.

use vstd::prelude::*;
use vstd::string::StringSliceAdditionalSpecFns;

verus! {

/// The charging state a power supply reports.
#[derive(Clone, Copy, Debug, PartialEq, Eq, Structural)]
pub enum BatteryState {
    /// Discharging.
    Discharging,
    /// Charging.
    Charging,
    /// Connected but not charging.
    NotCharging,
    /// Full.
    Full,
    /// Unknown state.
    Unknown,
    /// Held at its charge threshold.
    AtThreshold,
    /// An invalid reading.
    Invalid,
}

/// A state name no battery reports.
#[derive(Clone, Debug, PartialEq, Eq)]
pub struct InvalidBatteryState(pub String);

/// One battery: its level in percent, its reported name, its state, and
/// the power-supply path it was read from.
#[derive(Clone, Debug)]
pub struct Battery {
    level: u8,
    name: String,
    state: BatteryState,
    path: Option<String>,
}

impl Battery {
    /// The level in percent.
    pub closed spec fn spec_level(self) -> u8 {
        self.level
    }

    /// The reported model name.
    pub closed spec fn spec_name(self) -> Seq<char> {
        self.name@
    }

    /// The charging state.
    pub closed spec fn spec_state(self) -> BatteryState {
        self.state
    }

    /// The power-supply path, for batteries read from one.
    pub closed spec fn spec_path(self) -> Option<String> {
        self.path
    }

    /// Assemble a battery reading.
    pub fn new(level: u8, name: String, state: BatteryState, path: Option<String>) -> (r: Self)
        ensures
            r.spec_level() == level,
            r.spec_name() == name@,
            r.spec_state() == state,
            r.spec_path() == path,
    {
        Battery { level, name, state, path }
    }

    /// The level in percent.
    pub fn level(&self) -> (r: u8)
        ensures
            r == self.spec_level(),
    {
        self.level
    }

    /// The reported model name.
    pub fn name(&self) -> (r: &str)
        ensures
            r@ == self.spec_name(),
    {
        self.name.as_str()
    }

    /// The charging state.
    pub fn state(&self) -> (r: BatteryState)
        ensures
            r == self.spec_state(),
    {
        self.state
    }

    /// The power-supply path, if the battery was read from one.
    pub fn path(&self) -> (r: Option<&String>)
        ensures
            match r {
                Some(p) => self.spec_path() == Some(*p),
                None => self.spec_path() is None,
            },
    {
        self.path.as_ref()
    }
}

/// Byte-wise string comparison.
fn str_eq(a: &str, b: &str) -> (r: bool)
    ensures
        r == (a.spec_bytes() == b.spec_bytes()),
{
    let ab = a.as_bytes();
    let bb = b.as_bytes();
    let n = ab.len();
    if n != bb.len() {
        return false;
    }
    let mut i: usize = 0;
    while i < n
        invariant
            0 <= i <= n,
            n == ab@.len(),
            n == bb@.len(),
            ab@ == a.spec_bytes(),
            bb@ == b.spec_bytes(),
            forall|k: int| 0 <= k < i ==> ab@[k] == bb@[k],
        decreases n - i,
    {
        if ab[i] != bb[i] {
            assert(a.spec_bytes()[i as int] != b.spec_bytes()[i as int]);
            return false;
        }
        i = i + 1;
    }
    proof {
        assert(a.spec_bytes() =~= b.spec_bytes());
    }
    true
}

/// The state a status-file name denotes, if any.
pub open spec fn spec_battery_state(s: Seq<u8>) -> Option<BatteryState> {
    if s == "Discharging".spec_bytes() {
        Some(BatteryState::Discharging)
    } else if s == "Charging".spec_bytes() {
        Some(BatteryState::Charging)
    } else if s == "Not charging".spec_bytes() {
        Some(BatteryState::NotCharging)
    } else if s == "Full".spec_bytes() {
        Some(BatteryState::Full)
    } else if s == "Unknown".spec_bytes() {
        Some(BatteryState::Unknown)
    } else if s == "At threshold".spec_bytes() {
        Some(BatteryState::AtThreshold)
    } else if s == "Invalid".spec_bytes() {
        Some(BatteryState::Invalid)
    } else {
        None
    }
}

/// Decode the state name a power-supply status file holds.  Every name the
/// kernel documents maps to its state; any other name is the error,
/// holding the name.
pub fn name_to_battery_state(name: &str) -> (r: Result<BatteryState, InvalidBatteryState>)
    ensures
        match spec_battery_state(name.spec_bytes()) {
            Some(st) => r == Ok::<BatteryState, InvalidBatteryState>(st),
            None => (r matches Err(e) && e.0@ == name@),
        },
{
    if str_eq(name, "Discharging") {
        Ok(BatteryState::Discharging)
    } else if str_eq(name, "Charging") {
        Ok(BatteryState::Charging)
    } else if str_eq(name, "Not charging") {
        Ok(BatteryState::NotCharging)
    } else if str_eq(name, "Full") {
        Ok(BatteryState::Full)
    } else if str_eq(name, "Unknown") {
        Ok(BatteryState::Unknown)
    } else if str_eq(name, "At threshold") {
        Ok(BatteryState::AtThreshold)
    } else if str_eq(name, "Invalid") {
        Ok(BatteryState::Invalid)
    } else {
        Err(InvalidBatteryState(name.to_owned()))
    }
}

/// Percentage of `full_uwh` that `now_uwh` represents, capped at one
/// hundred.
pub fn level_from_energy(now_uwh: u64, full_uwh: u64) -> (r: u8)
    requires
        full_uwh >= 1,
        now_uwh <= u64::MAX / 100,
    ensures
        r == if (now_uwh * 100) as int / full_uwh as int <= 100 {
            (now_uwh * 100) as int / full_uwh as int
        } else {
            100int
        },
{
    let v = (now_uwh * 100) / full_uwh;
    if v > 100 {
        100
    } else {
        v as u8
    }
}

/// Microwatt-hours from a charge reading and the supply voltage.
pub fn energy_from_charge(charge: u64, voltage: u64) -> (r: u64)
    requires
        charge * voltage <= u64::MAX,
    ensures
        r == (charge * voltage) / 1000,
{
    charge * voltage / 1000
}

/// The microwatt-hour reading a power supply exposes: the direct energy
/// file when the supply has one, otherwise derived from its charge and
/// voltage files, and nothing when neither is available.
pub fn battery_energy(
    energy_uwh: Option<u64>,
    charge: Option<u64>,
    voltage: Option<u64>,
) -> (r: Option<u64>)
    requires
        (match (charge, voltage) {
            (Some(c), Some(v)) => c * v <= u64::MAX,
            _ => true,
        }),
    ensures
        match (energy_uwh, charge, voltage) {
            (Some(e), _, _) => r == Some(e),
            (None, Some(c), Some(v)) => r == Some((((c * v) / 1000) as u64)),
            _ => r is None,
        },
{
    match energy_uwh {
        Some(e) => Some(e),
        None => match (charge, voltage) {
            (Some(c), Some(v)) => Some(energy_from_charge(c, v)),
            _ => None,
        },
    }
}

} // verus!
