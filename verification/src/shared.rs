//! Process state and security-state queries.
use vstd::prelude::*;

verus! {

use crate::shared_vmsa::PrivilegeLevel;
use crate::sysregs::ArchState;

/// Process state (PSTATE), packed into one 64-bit word. The fields keep the
/// usual order: N, Z, C, V, D, A, I, F each one bit from bit 0, PAN at bit 8,
/// UAO, DIT, TCO, BTYPE (2 bits from bit 12), ALLINT, SS, IL, and the
/// exception level EL in bits 18:17.
#[derive(Debug, Copy, Clone, PartialEq, Eq, Structural)]
pub struct ProcState {
    pub bits: u64,
}

impl ProcState {
    /// An all-clear process state: every flag zero, exception level 0.
    pub fn new() -> (r: ProcState)
        ensures
            r.bits == 0,
    {
        ProcState { bits: 0 }
    }

    /// The raw two-bit exception-level field, bits 18:17.
    pub open spec fn spec_el_bits(self) -> u64 {
        (self.bits >> 17) & 3
    }

    /// The exception level as a privilege level, for use in contracts.
    pub open spec fn spec_el(self) -> PrivilegeLevel {
        if self.spec_el_bits() == 0 {
            PrivilegeLevel::PL0
        } else if self.spec_el_bits() == 1 {
            PrivilegeLevel::PL1
        } else if self.spec_el_bits() == 2 {
            PrivilegeLevel::PL2
        } else {
            PrivilegeLevel::PL3
        }
    }

    /// Read the exception-level field.
    pub fn get_EL(&self) -> (r: PrivilegeLevel)
        ensures
            r == self.spec_el(),
    {
        let el: u64 = (self.bits >> 17) & 3;
        if el == 0 {
            PrivilegeLevel::PL0
        } else if el == 1 {
            PrivilegeLevel::PL1
        } else if el == 2 {
            PrivilegeLevel::PL2
        } else {
            PrivilegeLevel::PL3
        }
    }

}

/// The security state of an execution context.
#[derive(Debug, Copy, Clone, PartialEq, Eq, Structural)]
pub enum SecurityState {
    SS_NonSecure,
    SS_Root,
    SS_Realm,
    SS_Secure,
}

/// Whether exception level `el` is implemented: EL0 and EL1 always exist,
/// EL2 and EL3 only when the matching feature is implemented.
pub open spec fn spec_have_el(state: ArchState, el: PrivilegeLevel) -> bool {
    match el {
        PrivilegeLevel::PL0 => true,
        PrivilegeLevel::PL1 => true,
        PrivilegeLevel::PL2 => state.feat_aa64el2,
        PrivilegeLevel::PL3 => state.feat_aa64el3,
    }
}

/// Return TRUE if exception level `el` is supported.
pub fn HaveEL(state: &ArchState, el: PrivilegeLevel) -> (r: bool)
    ensures
        r == spec_have_el(*state, el),
{
    match el {
        PrivilegeLevel::PL0 => true,
        PrivilegeLevel::PL1 => true,
        PrivilegeLevel::PL2 => state.feat_aa64el2,
        PrivilegeLevel::PL3 => state.feat_aa64el3,
    }
}

/// Whether Secure EL2 is enabled: EL2 and the Secure-EL2 feature must be
/// implemented, and either EL3 (running AArch64) has its Secure-EL2 enable
/// set, or the implementation is Secure-only.
pub open spec fn spec_secure_el2_enabled(state: ArchState) -> bool {
    if spec_have_el(state, PrivilegeLevel::PL2) && state.feat_sel2 {
        if spec_have_el(state, PrivilegeLevel::PL3) {
            state.scr_eel2
        } else {
            state.secure_only
        }
    } else {
        false
    }
}

/// Returns TRUE if Secure EL2 is enabled, FALSE otherwise.
pub fn IsSecureEL2Enabled(state: &ArchState) -> (r: bool)
    ensures
        r == spec_secure_el2_enabled(*state),
{
    if HaveEL(state, PrivilegeLevel::PL2) && state.feat_sel2 {
        if HaveEL(state, PrivilegeLevel::PL3) {
            state.scr_eel2
        } else {
            crate::sysregs::SecureOnlyImplementation(state)
        }
    } else {
        false
    }
}

/// Whether EL2 is present and enabled for the current security state: EL2 is
/// implemented, and EL3 is absent, or the machine is Non-secure, or Secure
/// EL2 is enabled.
pub open spec fn spec_el2_enabled(state: ArchState) -> bool {
    spec_have_el(state, PrivilegeLevel::PL2) && (!spec_have_el(state, PrivilegeLevel::PL3)
        || state.scr_ns || spec_secure_el2_enabled(state))
}

/// Returns TRUE if EL2 is present and executing in a state where its
/// translation controls apply.
pub fn EL2Enabled(state: &ArchState) -> (r: bool)
    ensures
        r == spec_el2_enabled(*state),
{
    HaveEL(state, PrivilegeLevel::PL2) && (!HaveEL(state, PrivilegeLevel::PL3) || state.scr_ns
        || IsSecureEL2Enabled(state))
}

} // verus!
