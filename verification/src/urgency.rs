//! Notification urgency levels and their wire encoding.

use vstd::prelude::*;

verus! {

/// How urgent a notification is.
#[derive(Clone, Copy, Debug, PartialEq, Eq, Structural)]
pub enum Urgency {
    /// Low urgency.
    Low,
    /// Normal urgency, the default.
    Normal,
    /// Critical urgency.
    Critical,
}

impl core::convert::From<u8> for Urgency {
    /// Decode the wire byte: zero is low, two is critical, anything else
    /// is normal.
    fn from(value: u8) -> (r: Urgency) {
        match value {
            0 => Urgency::Low,
            2 => Urgency::Critical,
            _ => Urgency::Normal,
        }
    }
}

impl vstd::std_specs::convert::FromSpecImpl<u8> for Urgency {
    open spec fn obeys_from_spec() -> bool {
        true
    }

    open spec fn from_spec(value: u8) -> Urgency {
        if value == 0 {
            Urgency::Low
        } else if value == 2 {
            Urgency::Critical
        } else {
            Urgency::Normal
        }
    }
}

impl core::convert::From<Urgency> for u8 {
    /// Encode for the wire: low is zero, normal one, critical two.
    fn from(value: Urgency) -> (r: u8) {
        match value {
            Urgency::Low => 0,
            Urgency::Normal => 1,
            Urgency::Critical => 2,
        }
    }
}

impl vstd::std_specs::convert::FromSpecImpl<Urgency> for u8 {
    open spec fn obeys_from_spec() -> bool {
        true
    }

    open spec fn from_spec(value: Urgency) -> u8 {
        match value {
            Urgency::Low => 0,
            Urgency::Normal => 1,
            Urgency::Critical => 2,
        }
    }
}

} // verus!
