//! Closed enumerations carried by mandate records.

use vstd::prelude::*;

verus! {

/// Lifecycle state of a mandate. Any state may be written over any other:
/// transition legality is decided by the caller.
#[derive(Clone, Copy, Debug, PartialEq, Eq, Structural, Hash)]
pub enum MandateStatus {
    Active,
    Inactive,
    Pending,
    Revoked,
}

impl Default for MandateStatus {
    fn default() -> (r: Self)
        ensures
            r == MandateStatus::Active,
    {
        MandateStatus::Active
    }
}

/// Whether a mandate authorizes one future charge or many.
#[derive(Clone, Copy, Debug, PartialEq, Eq, Structural, Hash)]
pub enum MandateType {
    SingleUse,
    MultiUse,
}

impl Default for MandateType {
    fn default() -> (r: Self)
        ensures
            r == MandateType::MultiUse,
    {
        MandateType::MultiUse
    }
}

/// ISO 4217 currency of an amount-bounded mandate.
#[derive(Clone, Copy, Debug, PartialEq, Eq, Structural, Hash)]
pub enum Currency {
    AED,
    AUD,
    BRL,
    CAD,
    CHF,
    CNY,
    EUR,
    GBP,
    HKD,
    INR,
    JPY,
    MXN,
    NZD,
    SEK,
    SGD,
    USD,
    ZAR,
}

impl Default for Currency {
    fn default() -> (r: Self)
        ensures
            r == Currency::USD,
    {
        Currency::USD
    }
}

} // verus!
