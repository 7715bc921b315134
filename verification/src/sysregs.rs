//! The architectural register and feature state a translation reads, as one
//! explicit context value, and the query functions over it. This is the
//! register/configuration collaborator of the translation engines: a pure
//! data value instead of ambient global state.
use vstd::prelude::*;

verus! {

use crate::shared::{ProcState, SecurityState, spec_el2_enabled, spec_have_el};
use crate::shared_memory::{AccessType, FullAddress, PASpace};
use crate::shared_translation::Regime;
use crate::shared_vmsa::{PrivilegeLevel, S1TTWParams, S2TTWParams, spec_va_range};
use crate::shared_memory::VARange;

/// The system-control fields of one exception level that steer a stage-1
/// translation: the MMU enable and the instruction- and data-cache enables.
#[derive(Default, Debug, Copy, Clone, PartialEq, Eq, Structural)]
pub struct SctlrFields {
    /// MMU enable (stage-1 translation enable)
    pub m: bool,
    /// Instruction-cache enable
    pub i: bool,
    /// Data-cache enable
    pub c: bool,
}

/// Architectural features this model lets an implementation opt into.
#[derive(Debug, Copy, Clone, PartialEq, Eq, Structural)]
pub enum Feature {
    FEAT_AA64EL2,
    FEAT_AA64EL3,
    FEAT_SEL2,
    FEAT_RME,
    FEAT_TME,
    FEAT_SVE,
}

/// The architectural state a translation reads: processor state, implemented
/// features, security controls, per-regime stage-1 configuration for both
/// address half-ranges, the stage-2 configuration, and the
/// memory-encryption-context ids.
#[derive(Debug, Copy, Clone, PartialEq, Eq, Structural)]
pub struct ArchState {
    pub pstate: ProcState,
    pub feat_aa64el2: bool,
    pub feat_aa64el3: bool,
    pub feat_sel2: bool,
    pub feat_rme: bool,
    pub feat_tme: bool,
    pub feat_sve: bool,
    /// The implementation has only the Secure security state
    pub secure_only: bool,
    /// Non-secure control
    pub scr_ns: bool,
    /// Realm control, decoded together with `scr_ns`
    pub scr_nse: bool,
    /// Secure-EL2 enable
    pub scr_eel2: bool,
    /// EL2 host (VHE) control
    pub hcr_e2h: bool,
    /// Trap-general-exceptions control
    pub hcr_tge: bool,
    /// Stage-1-disabled default-cacheable control
    pub hcr_dc: bool,
    /// Stage-2 instruction-cacheability disable
    pub hcr_id: bool,
    /// Stage-2 data-cacheability disable
    pub hcr_cd: bool,
    pub sctlr_el1: SctlrFields,
    pub sctlr_el2: SctlrFields,
    pub sctlr_el3: SctlrFields,
    /// Stage-1 walk parameters for the lower address half-range
    pub s1_lower: S1TTWParams,
    /// Stage-1 walk parameters for the upper address half-range
    pub s1_upper: S1TTWParams,
    /// Stage-1 translation-table base for the lower half-range
    pub ttb_lower: FullAddress,
    /// Stage-1 translation-table base for the upper half-range
    pub ttb_upper: FullAddress,
    /// Stage-2 walk parameters
    pub s2_params: S2TTWParams,
    /// Stage-2 translation-table base
    pub s2_ttb: FullAddress,
    /// Primary memory-encryption-context ids for the lower and upper ranges
    pub mecid_p0: u16,
    pub mecid_p1: u16,
    /// Alternate memory-encryption-context ids for the lower and upper ranges
    pub mecid_a0: u16,
    pub mecid_a1: u16,
    /// Memory-encryption-context id of the EL3 regime
    pub mecid_rl_a: u16,
    /// Primary and alternate virtual memory-encryption-context ids
    pub vmecid_p: u16,
    pub vmecid_a: u16,
}

impl ArchState {
    /// Every register field of the state holds a value its width allows;
    /// the translation-table bases fit the architected 48 bits.
    pub open spec fn wf(self) -> bool {
        self.s1_lower.wf() && self.s1_upper.wf() && self.s2_params.wf() && self.ttb_lower.address
            < 0x1_0000_0000_0000u64 && self.ttb_upper.address < 0x1_0000_0000_0000u64
            && self.s2_ttb.address < 0x1_0000_0000_0000u64
    }
}

/// Whether `feat` is implemented in `state`.
pub open spec fn spec_feature_implemented(state: ArchState, feat: Feature) -> bool {
    match feat {
        Feature::FEAT_AA64EL2 => state.feat_aa64el2,
        Feature::FEAT_AA64EL3 => state.feat_aa64el3,
        Feature::FEAT_SEL2 => state.feat_sel2,
        Feature::FEAT_RME => state.feat_rme,
        Feature::FEAT_TME => state.feat_tme,
        Feature::FEAT_SVE => state.feat_sve,
    }
}

/// Returns TRUE if the given feature is implemented.
pub fn IsFeatureImplemented(state: &ArchState, feat: Feature) -> (r: bool)
    ensures
        r == spec_feature_implemented(*state, feat),
{
    match feat {
        Feature::FEAT_AA64EL2 => state.feat_aa64el2,
        Feature::FEAT_AA64EL3 => state.feat_aa64el3,
        Feature::FEAT_SEL2 => state.feat_sel2,
        Feature::FEAT_RME => state.feat_rme,
        Feature::FEAT_TME => state.feat_tme,
        Feature::FEAT_SVE => state.feat_sve,
    }
}

/// Returns TRUE if the implementation has only the Secure security state.
pub fn SecureOnlyImplementation(state: &ArchState) -> (r: bool)
    ensures
        r == state.secure_only,
{
    state.secure_only
}

/// Whether the given exception level executes in AArch32. This model covers
/// AArch64 execution only, so no level does.
pub fn ELUsingAArch32(_el: PrivilegeLevel) -> (r: bool)
    ensures
        !r,
{
    false
}

/// Whether `el` runs as host under a VHE EL2: EL2 itself, or EL0 with
/// trap-general-exceptions set, when EL2 is enabled with E2H.
pub open spec fn spec_el_is_in_host(state: ArchState, el: PrivilegeLevel) -> bool {
    spec_el2_enabled(state) && state.hcr_e2h && (el == PrivilegeLevel::PL2 || (el
        == PrivilegeLevel::PL0 && state.hcr_tge))
}

/// Returns TRUE when the given exception level runs under the host (E2H)
/// translation regime of EL2.
pub fn ELIsInHost(state: &ArchState, el: PrivilegeLevel) -> (r: bool)
    ensures
        r == spec_el_is_in_host(*state, el),
{
    crate::shared::EL2Enabled(state) && state.hcr_e2h && (el == PrivilegeLevel::PL2 || (el
        == PrivilegeLevel::PL0 && state.hcr_tge))
}

/// The security state an exception level executes in: without EL3 the whole
/// machine is Secure or Non-secure by implementation choice; EL3 itself is
/// Root when RME is implemented; other levels decode the NS/NSE controls.
pub open spec fn spec_security_state_at_el(state: ArchState, el: PrivilegeLevel) -> SecurityState {
    if !spec_have_el(state, PrivilegeLevel::PL3) {
        if state.secure_only {
            SecurityState::SS_Secure
        } else {
            SecurityState::SS_NonSecure
        }
    } else if el == PrivilegeLevel::PL3 {
        if state.feat_rme {
            SecurityState::SS_Root
        } else if state.scr_ns {
            SecurityState::SS_NonSecure
        } else {
            SecurityState::SS_Secure
        }
    } else {
        if state.feat_rme && state.scr_nse && state.scr_ns {
            SecurityState::SS_Realm
        } else if state.scr_ns {
            SecurityState::SS_NonSecure
        } else {
            SecurityState::SS_Secure
        }
    }
}

/// Return the security state of the given exception level.
pub fn SecurityStateAtEL(state: &ArchState, el: PrivilegeLevel) -> (r: SecurityState)
    ensures
        r == spec_security_state_at_el(*state, el),
{
    if !crate::shared::HaveEL(state, PrivilegeLevel::PL3) {
        if state.secure_only {
            SecurityState::SS_Secure
        } else {
            SecurityState::SS_NonSecure
        }
    } else if el == PrivilegeLevel::PL3 {
        if state.feat_rme {
            SecurityState::SS_Root
        } else if state.scr_ns {
            SecurityState::SS_NonSecure
        } else {
            SecurityState::SS_Secure
        }
    } else {
        if state.feat_rme && state.scr_nse && state.scr_ns {
            SecurityState::SS_Realm
        } else if state.scr_ns {
            SecurityState::SS_NonSecure
        } else {
            SecurityState::SS_Secure
        }
    }
}

/// The security state of the current exception level.
pub open spec fn spec_current_security_state(state: ArchState) -> SecurityState {
    spec_security_state_at_el(state, state.pstate.spec_el())
}

/// Return the security state of the current exception level.
pub fn CurrentSecurityState(state: &ArchState) -> (r: SecurityState)
    ensures
        r == spec_current_security_state(*state),
{
    let el = state.pstate.get_EL();
    SecurityStateAtEL(state, el)
}

/// The system-control fields governing a regime: EL1's for EL1&0, EL2's for
/// the EL2 regimes, EL3's for the EL3 regimes.
pub open spec fn spec_regime_sctlr(state: ArchState, regime: Regime) -> SctlrFields {
    match regime {
        Regime::Regime_EL10 => state.sctlr_el1,
        Regime::Regime_EL20 => state.sctlr_el2,
        Regime::Regime_EL2 => state.sctlr_el2,
        Regime::Regime_EL3 => state.sctlr_el3,
        Regime::Regime_EL30 => state.sctlr_el3,
    }
}

/// Whether the stage-1 instruction cache is enabled for the regime.
pub fn AArch64S1ICacheEnabled(state: &ArchState, regime: Regime) -> (r: bool)
    ensures
        r == spec_regime_sctlr(*state, regime).i,
{
    match regime {
        Regime::Regime_EL10 => state.sctlr_el1.i,
        Regime::Regime_EL20 => state.sctlr_el2.i,
        Regime::Regime_EL2 => state.sctlr_el2.i,
        Regime::Regime_EL3 => state.sctlr_el3.i,
        Regime::Regime_EL30 => state.sctlr_el3.i,
    }
}

/// Whether the stage-1 data cache is enabled for the regime.
pub fn AArch64S1DCacheEnabled(state: &ArchState, regime: Regime) -> (r: bool)
    ensures
        r == spec_regime_sctlr(*state, regime).c,
{
    match regime {
        Regime::Regime_EL10 => state.sctlr_el1.c,
        Regime::Regime_EL20 => state.sctlr_el2.c,
        Regime::Regime_EL2 => state.sctlr_el2.c,
        Regime::Regime_EL3 => state.sctlr_el3.c,
        Regime::Regime_EL30 => state.sctlr_el3.c,
    }
}

/// Whether the stage-2 data cache is enabled.
pub fn S2DCacheEnabled(state: &ArchState) -> (r: bool)
    ensures
        r == !state.hcr_cd,
{
    !state.hcr_cd
}

/// Whether stage-1 translation is administratively enabled for the regime:
/// the regime's MMU enable, and for EL1&0 additionally neither the
/// default-cacheable nor the trap-general-exceptions control of an enabled
/// EL2 forces it off.
pub open spec fn spec_s1_enabled(state: ArchState, regime: Regime) -> bool {
    match regime {
        Regime::Regime_EL10 => !(spec_el2_enabled(state) && (state.hcr_dc || state.hcr_tge))
            && state.sctlr_el1.m,
        Regime::Regime_EL20 => state.sctlr_el2.m,
        Regime::Regime_EL2 => state.sctlr_el2.m,
        Regime::Regime_EL3 => state.sctlr_el3.m,
        Regime::Regime_EL30 => state.sctlr_el3.m,
    }
}

/// Determine if stage-1 translation is enabled for the access's regime.
pub fn AArch64S1Enabled(state: &ArchState, regime: Regime, _acctype: AccessType) -> (r: bool)
    ensures
        r == spec_s1_enabled(*state, regime),
{
    match regime {
        Regime::Regime_EL10 => !(crate::shared::EL2Enabled(state) && (state.hcr_dc
            || state.hcr_tge)) && state.sctlr_el1.m,
        Regime::Regime_EL20 => state.sctlr_el2.m,
        Regime::Regime_EL2 => state.sctlr_el2.m,
        Regime::Regime_EL3 => state.sctlr_el3.m,
        Regime::Regime_EL30 => state.sctlr_el3.m,
    }
}

/// The stage-1 walk parameters serving `va`: each address half-range has its
/// own bank of register fields.
pub open spec fn spec_s1_walkparams(state: ArchState, va: u64) -> S1TTWParams {
    if spec_va_range(va) == VARange::VARange_LOWER {
        state.s1_lower
    } else {
        state.s1_upper
    }
}

/// The stage-1 translation-table base serving `va`.
pub open spec fn spec_s1_ttb(state: ArchState, va: u64) -> FullAddress {
    if spec_va_range(va) == VARange::VARange_LOWER {
        state.ttb_lower
    } else {
        state.ttb_upper
    }
}

/// Gather the stage-1 walk parameters for this regime, security state and
/// virtual address.
pub fn AArch64GetS1TTWParams(state: &ArchState, _regime: Regime, _ss: SecurityState, va: u64) -> (r:
    S1TTWParams)
    ensures
        r == spec_s1_walkparams(*state, va),
{
    if va & 0x0080_0000_0000_0000u64 == 0 {
        state.s1_lower
    } else {
        state.s1_upper
    }
}

/// Gather the stage-2 walk parameters.
pub fn AArch64GetS2TTWParams(
    state: &ArchState,
    _ss: SecurityState,
    _ipaspace: PASpace,
    _s1aarch64: bool,
) -> (r: S2TTWParams)
    ensures
        r == state.s2_params,
{
    state.s2_params
}

/// The control-flow-integrity collaborator's state: whether the most recent
/// instruction fetch came from a guarded page.
#[derive(Debug, Copy, Clone, PartialEq, Eq, Structural)]
pub struct CfiState {
    pub in_guarded_page: bool,
}

/// Surface the guarded-page attribute of a fetched instruction to the
/// control-flow-integrity collaborator.
pub fn SetInGuardedPage(cfi: &mut CfiState, guardedpage: bool)
    ensures
        final(cfi).in_guarded_page == guardedpage,
{
    cfi.in_guarded_page = guardedpage;
}

} // verus!
