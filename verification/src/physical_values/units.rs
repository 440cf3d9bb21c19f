use vstd::prelude::*;

verus! {

/// A physical unit, identified by its symbol.
pub trait Unit {
    const NAME: &'static str;
}

/// Unit of time.
#[derive(Clone, Copy, Debug, PartialEq, Eq, PartialOrd, Ord)]
pub struct Second();

impl Unit for Second {
    const NAME: &'static str = "s";
}

/// Unit of frequency.
#[derive(Clone, Copy, Debug, PartialEq, Eq, PartialOrd, Ord)]
pub struct Hz();

impl Unit for Hz {
    const NAME: &'static str = "Hz";
}

/// Unit of voltage.
#[derive(Clone, Copy, Debug, PartialEq, Eq, PartialOrd, Ord)]
pub struct Volt();

impl Unit for Volt {
    const NAME: &'static str = "V";
}

/// Unit of current.
#[derive(Clone, Copy, Debug, PartialEq, Eq, PartialOrd, Ord)]
pub struct Ampere();

impl Unit for Ampere {
    const NAME: &'static str = "A";
}

/// Unit of power.
#[derive(Clone, Copy, Debug, PartialEq, Eq, PartialOrd, Ord)]
pub struct Watt();

impl Unit for Watt {
    const NAME: &'static str = "W";
}

/// Unit of charge capacity.
#[derive(Clone, Copy, Debug, PartialEq, Eq, PartialOrd, Ord)]
pub struct AmpereHour();

impl Unit for AmpereHour {
    const NAME: &'static str = "Ah";
}

/// Unit of temperature.
#[derive(Clone, Copy, Debug, PartialEq, Eq, PartialOrd, Ord)]
pub struct DegCelsius();

impl Unit for DegCelsius {
    const NAME: &'static str = "°C";
}

} // verus!
