//! Memory-encryption-context (MEC) tagging: the 16-bit context id stamped on
//! a translation result, selecting an encryption key domain.
use vstd::prelude::*;

verus! {

use crate::shared_memory::{PASpace, VARange};
use crate::shared_translation::Regime;
use crate::shared_vmsa::{S1TTWParams, S2TTWParams};
use crate::sysregs::ArchState;

/// The sentinel context id used whenever encryption-context tagging does not
/// apply.
pub const DEFAULT_MECID: u16 = 0;

/// The alternate-context bit of a leaf descriptor: bit 108 under the
/// 128-bit format, bit 63 otherwise.
pub open spec fn spec_descriptor_amec(d128: u64, descriptor: u128) -> bool {
    if d128 == 1 {
        ((descriptor >> 108) & 1) == 1
    } else {
        ((descriptor >> 63) & 1) == 1
    }
}

/// The stage-1 output context id: the default unless tagging is enabled and
/// the output address is in the Realm space; then the regime (and for EL2&0
/// the half-range and the descriptor's alternate-context bit) selects one of
/// the configured context ids.
pub open spec fn spec_s1_output_mecid(
    state: ArchState,
    walkparams: S1TTWParams,
    regime: Regime,
    varange: VARange,
    paspace: PASpace,
    amec: bool,
) -> u16 {
    if walkparams.emec != 1 {
        DEFAULT_MECID
    } else if paspace != PASpace::PAS_Realm {
        DEFAULT_MECID
    } else {
        match regime {
            Regime::Regime_EL3 => state.mecid_rl_a,
            Regime::Regime_EL2 => if amec {
                state.mecid_a0
            } else {
                state.mecid_p0
            },
            Regime::Regime_EL20 => if varange == VARange::VARange_LOWER {
                if amec {
                    state.mecid_a0
                } else {
                    state.mecid_p0
                }
            } else {
                if amec {
                    state.mecid_a1
                } else {
                    state.mecid_p1
                }
            },
            Regime::Regime_EL10 => state.vmecid_p,
            Regime::Regime_EL30 => DEFAULT_MECID,
        }
    }
}

/// Returns the output context id of a stage-1 translation over a 64-bit
/// descriptor.
pub fn AArch64S1OutputMECID_64(
    state: &ArchState,
    walkparams: S1TTWParams,
    regime: Regime,
    varange: VARange,
    paspace: PASpace,
    descriptor: u64,
) -> (r: u16)
    ensures
        r == spec_s1_output_mecid(
            *state,
            walkparams,
            regime,
            varange,
            paspace,
            ((descriptor >> 63) & 1) == 1,
        ),
{
    let amec: bool = ((descriptor >> 63) & 1) == 1;
    s1_output_mecid_common(state, walkparams, regime, varange, paspace, amec)
}

/// Returns the output context id of a stage-1 translation over a descriptor
/// held in 128 bits; under the 64-bit format the descriptor occupies the low
/// word.
pub fn AArch64S1OutputMECID_128(
    state: &ArchState,
    walkparams: S1TTWParams,
    regime: Regime,
    varange: VARange,
    paspace: PASpace,
    descriptor: u128,
) -> (r: u16)
    ensures
        r == spec_s1_output_mecid(
            *state,
            walkparams,
            regime,
            varange,
            paspace,
            spec_descriptor_amec(walkparams.d128, descriptor),
        ),
{
    let amec: bool = if walkparams.d128 == 1 {
        ((descriptor >> 108) & 1) == 1
    } else {
        ((descriptor >> 63) & 1) == 1
    };
    s1_output_mecid_common(state, walkparams, regime, varange, paspace, amec)
}

/// The shared regime dispatch of the stage-1 context-id computation.
fn s1_output_mecid_common(
    state: &ArchState,
    walkparams: S1TTWParams,
    regime: Regime,
    varange: VARange,
    paspace: PASpace,
    amec: bool,
) -> (r: u16)
    ensures
        r == spec_s1_output_mecid(*state, walkparams, regime, varange, paspace, amec),
{
    if walkparams.emec != 1 {
        return DEFAULT_MECID;
    }
    if paspace != PASpace::PAS_Realm {
        return DEFAULT_MECID;
    }
    match regime {
        Regime::Regime_EL3 => state.mecid_rl_a,
        Regime::Regime_EL2 => if amec {
            state.mecid_a0
        } else {
            state.mecid_p0
        },
        Regime::Regime_EL20 => if varange == VARange::VARange_LOWER {
            if amec {
                state.mecid_a0
            } else {
                state.mecid_p0
            }
        } else {
            if amec {
                state.mecid_a1
            } else {
                state.mecid_p1
            }
        },
        Regime::Regime_EL10 => state.vmecid_p,
        Regime::Regime_EL30 => DEFAULT_MECID,
    }
}

/// The output context id when stage-1 translation is disabled: the default
/// unless tagging is enabled, the regime is one EL2 controls, and the output
/// space is Realm.
pub open spec fn spec_s1_disabled_output_mecid(
    state: ArchState,
    walkparams: S1TTWParams,
    regime: Regime,
    paspace: PASpace,
) -> u16 {
    if walkparams.emec != 1 {
        DEFAULT_MECID
    } else if !(regime == Regime::Regime_EL2 || regime == Regime::Regime_EL20 || regime
        == Regime::Regime_EL10) {
        DEFAULT_MECID
    } else if paspace != PASpace::PAS_Realm {
        DEFAULT_MECID
    } else if regime == Regime::Regime_EL10 {
        state.vmecid_p
    } else {
        state.mecid_p0
    }
}

/// Returns the output context id when stage-1 address translation is
/// disabled.
pub fn AArch64S1DisabledOutputMECID(
    state: &ArchState,
    walkparams: S1TTWParams,
    regime: Regime,
    paspace: PASpace,
) -> (r: u16)
    ensures
        r == spec_s1_disabled_output_mecid(*state, walkparams, regime, paspace),
{
    if walkparams.emec != 1 {
        DEFAULT_MECID
    } else if !(matches!(regime, Regime::Regime_EL2) || matches!(regime, Regime::Regime_EL20)
        || matches!(regime, Regime::Regime_EL10)) {
        DEFAULT_MECID
    } else if !matches!(paspace, PASpace::PAS_Realm) {
        DEFAULT_MECID
    } else if matches!(regime, Regime::Regime_EL10) {
        state.vmecid_p
    } else {
        state.mecid_p0
    }
}

/// The stage-2 output context id: the default unless tagging is enabled and
/// the output address is in the Realm space; then the descriptor's
/// alternate-context bit selects the primary or alternate virtual context.
pub open spec fn spec_s2_output_mecid(
    state: ArchState,
    walkparams: S2TTWParams,
    paspace: PASpace,
    amec: bool,
) -> u16 {
    if walkparams.emec != 1 {
        DEFAULT_MECID
    } else if paspace != PASpace::PAS_Realm {
        DEFAULT_MECID
    } else if amec {
        state.vmecid_a
    } else {
        state.vmecid_p
    }
}

/// Returns the output context id for a stage-2 translation.
pub fn AArch64S2OutputMECID(
    state: &ArchState,
    walkparams: S2TTWParams,
    paspace: PASpace,
    descriptor: u128,
) -> (r: u16)
    ensures
        r == spec_s2_output_mecid(
            *state,
            walkparams,
            paspace,
            spec_descriptor_amec(walkparams.d128, descriptor),
        ),
{
    let amec: bool = if walkparams.d128 == 1 {
        ((descriptor >> 108) & 1) == 1
    } else {
        ((descriptor >> 63) & 1) == 1
    };
    if walkparams.emec != 1 {
        DEFAULT_MECID
    } else if paspace != PASpace::PAS_Realm {
        DEFAULT_MECID
    } else if amec {
        state.vmecid_a
    } else {
        state.vmecid_p
    }
}

} // verus!
