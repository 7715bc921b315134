//! Translation regimes and address-translation-instruction access kinds.
use vstd::prelude::*;

verus! {

/// The access kinds an address-translation (AT) instruction can probe.
#[derive(Debug, Copy, Clone, PartialEq, Eq, Structural)]
pub enum ATAccess {
    ATAccess_Read,
    ATAccess_Write,
    ATAccess_ReadPAN,
    ATAccess_WritePAN,
}

/// Translation regimes: the exception-level combination a translation
/// configuration serves.
#[derive(Debug, Copy, Clone, PartialEq, Eq, Structural)]
pub enum Regime {
    /// EL3
    Regime_EL3,
    /// EL3&0 (PL1&0 when EL3 is AArch32)
    Regime_EL30,
    /// EL2
    Regime_EL2,
    /// EL2&0
    Regime_EL20,
    /// EL1&0
    Regime_EL10,
}

} // verus!
