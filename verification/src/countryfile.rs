//! The zone and continent types of the country data.
//!
//! The country and prefix tables themselves are a separate lookup
//! subsystem; these small types travel with a callsign's country
//! information, and the simulator keys the CQ zone in its exchange.

use vstd::prelude::*;

verus! {

/// A CQ zone number.
#[derive(Debug, Copy, Clone, PartialEq, Eq, Structural)]
pub struct CqZone(pub u8);

impl From<CqZone> for u8 {
    /// The bare zone number.
    fn from(value: CqZone) -> (r: u8) {
        value.0
    }
}

impl vstd::std_specs::convert::FromSpecImpl<CqZone> for u8 {
    open spec fn obeys_from_spec() -> bool {
        true
    }

    open spec fn from_spec(value: CqZone) -> u8 {
        value.0
    }
}

/// An ITU zone number.
#[derive(Debug, Copy, Clone, PartialEq, Eq, Structural)]
pub struct ItuZone(pub u8);

impl From<ItuZone> for u8 {
    /// The bare zone number.
    fn from(value: ItuZone) -> (r: u8) {
        value.0
    }
}

impl vstd::std_specs::convert::FromSpecImpl<ItuZone> for u8 {
    open spec fn obeys_from_spec() -> bool {
        true
    }

    open spec fn from_spec(value: ItuZone) -> u8 {
        value.0
    }
}

/// A continent of the country table.
#[derive(Debug, Copy, Clone, PartialEq, Eq, Structural)]
pub enum Continent {
    NorthAmerica,
    SouthAmerica,
    Europe,
    Asia,
    Africa,
    Oceania,
}

impl Continent {
    /// The two-letter continent code.
    pub fn as_code(&self) -> (r: &'static str)
        ensures
            *self == Continent::NorthAmerica ==> r@ == "NA"@,
            *self == Continent::SouthAmerica ==> r@ == "SA"@,
            *self == Continent::Europe ==> r@ == "EU"@,
            *self == Continent::Asia ==> r@ == "AS"@,
            *self == Continent::Africa ==> r@ == "AF"@,
            *self == Continent::Oceania ==> r@ == "OC"@,
    {
        match self {
            Continent::NorthAmerica => "NA",
            Continent::SouthAmerica => "SA",
            Continent::Europe => "EU",
            Continent::Asia => "AS",
            Continent::Africa => "AF",
            Continent::Oceania => "OC",
        }
    }
}

} // verus!
