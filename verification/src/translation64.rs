//! The translation engines: the stage-1 and stage-2 translators and the
//! full-translate orchestrator that composes regime selection, stage 1, and
//! — for the EL1&0 regime under an enabled EL2 — stage 2.
use vstd::prelude::*;

verus! {

use crate::shared::{EL2Enabled, SecurityState, spec_el2_enabled};
use crate::shared_memory::{AccessDescriptor, AccessType, DeviceType, EffectiveShareability, Fault,
    FaultRecord, FullAddress, MemAttr, MemAttrHints, MemHint, MemTagType, MemType,
    MemoryAttributes, NormalNCMemAttr, PASpace, Shareability, spec_effective_shareability,
    spec_normal_nc_memattrs};
use crate::shared_translation::Regime;
use crate::shared_vmsa::{AddressDescriptor, CreateAddressDescriptor,
    CreateFaultyAddressDescriptor, PrivilegeLevel, S1TTWParams, S2TTWParams, StageOA, TTWState,
    TranslationRegime, spec_faulty_descriptor, spec_translation_regime, AArch64GetVARange};
use crate::physmem::{AArch64MemSwapTableDesc, Hdbss, PhysMem, AppendToHDBSS};
use crate::sysregs::{ArchState, CfiState, Feature, IsFeatureImplemented, SetInGuardedPage,
    spec_s1_enabled, spec_s1_walkparams, spec_regime_sctlr};
use crate::walk::{AArch64S1CheckPermissions, AArch64S1HasAlignmentFault, AArch64S1MinTxSZ,
    AArch64S1TxSZFaults, AArch64S1Walk_128, AArch64S2CheckPermissions,
    AArch64S2HasAlignmentFault, AArch64S2MinTxSZ, AArch64S2TxSZFaults, AArch64S2Walk,
    AArch64IPAIsOutOfRange, AArch64MaxTxSZ, AArch64SettingAccessFlagPermitted,
    AArch64SettingDirtyStatePermitted, AArch64VAIsOutOfRange, DecodePASize, spec_addr_top,
    spec_ipa_out_of_range, spec_pa_size, spec_s1_clamped_walkparams, spec_s1_txsz_faults,
    spec_s2_clamped_walkparams, spec_s2_txsz_faults, spec_va_out_of_range};

/// The physical-address space a security state's accesses target by default.
pub open spec fn spec_pas_from_ss(ss: SecurityState) -> PASpace {
    match ss {
        SecurityState::SS_NonSecure => PASpace::PAS_NonSecure,
        SecurityState::SS_Secure => PASpace::PAS_Secure,
        SecurityState::SS_Root => PASpace::PAS_Root,
        SecurityState::SS_Realm => PASpace::PAS_Realm,
    }
}

/// Map a security state to its default physical-address space.
pub fn PASpaceFromSS(ss: SecurityState) -> (r: PASpace)
    ensures
        r == spec_pas_from_ss(ss),
{
    match ss {
        SecurityState::SS_NonSecure => PASpace::PAS_NonSecure,
        SecurityState::SS_Secure => PASpace::PAS_Secure,
        SecurityState::SS_Root => PASpace::PAS_Root,
        SecurityState::SS_Realm => PASpace::PAS_Realm,
    }
}

/// Replace the low 64-bit word of a 128-bit descriptor; hardware updates
/// touch only the low word.
fn replace_low_word(d: u128, x: u64) -> (r: u128)
    ensures
        (r >> 64) == (d >> 64),
        (r as u64) == x,
        x == (d as u64) ==> r == d,
{
    proof {
        crate::bitops::lemma_u128_replace_low(d, x);
    }
    ((((d >> 64) as u64) as u128) << 64) | (x as u128)
}

/// Whether the default-cacheable control governs this regime: EL1&0 with an
/// enabled EL2 whose DC control is set (stage 1 is then disabled).
pub open spec fn spec_s1_dc_active(state: ArchState, regime: Regime) -> bool {
    regime == Regime::Regime_EL10 && spec_el2_enabled(state) && state.hcr_dc
}

/// The virtual-address bits the stage-1-disabled path checks: those from
/// the output-address size up to the checked top bit.
pub open spec fn spec_s1_disabled_region(walkparams: S1TTWParams, acctype: AccessType) -> u64 {
    let upper = if spec_addr_top(walkparams, acctype) == 63 {
        0xFFFF_FFFF_FFFF_FFFFu64
    } else {
        0x00FF_FFFF_FFFF_FFFFu64
    };
    (upper & !((((1u64 << ((spec_pa_size(walkparams.ps)) as u64)) - 1) as u64)))
}

/// The memory attributes the stage-1-disabled path assigns: Write-back
/// cacheable (tagged under the DCT control) when the default-cacheable
/// control is active; Write-through or Non-cacheable Normal memory for
/// instruction fetches depending on the instruction-cache enable; strongly
/// ordered Device memory for data accesses.
pub open spec fn spec_s1_disabled_memattrs(
    state: ArchState,
    regime: Regime,
    walkparams: S1TTWParams,
    acctype: AccessType,
) -> MemoryAttributes {
    if spec_s1_dc_active(state, regime) {
        MemoryAttributes {
            memtype: MemType::MemType_Normal,
            device: DeviceType::DeviceType_GRE,
            inner: MemAttrHints {
                attrs: MemAttr::MemAttr_WB,
                hints: MemHint::MemHint_RWA,
                transient: false,
            },
            outer: MemAttrHints {
                attrs: MemAttr::MemAttr_WB,
                hints: MemHint::MemHint_RWA,
                transient: false,
            },
            shareability: Shareability::Shareability_ISH,
            tags: if walkparams.dct == 1 {
                MemTagType::MemTag_AllocationTagged
            } else {
                MemTagType::MemTag_Untagged
            },
            notagaccess: false,
            xs: false,
        }
    } else if acctype == AccessType::AccessType_IFETCH {
        MemoryAttributes {
            memtype: MemType::MemType_Normal,
            device: DeviceType::DeviceType_GRE,
            inner: if spec_regime_sctlr(state, regime).i {
                MemAttrHints {
                    attrs: MemAttr::MemAttr_WT,
                    hints: MemHint::MemHint_RA,
                    transient: false,
                }
            } else {
                MemAttrHints {
                    attrs: MemAttr::MemAttr_NC,
                    hints: MemHint::MemHint_No,
                    transient: false,
                }
            },
            outer: if spec_regime_sctlr(state, regime).i {
                MemAttrHints {
                    attrs: MemAttr::MemAttr_WT,
                    hints: MemHint::MemHint_RA,
                    transient: false,
                }
            } else {
                MemAttrHints {
                    attrs: MemAttr::MemAttr_NC,
                    hints: MemHint::MemHint_No,
                    transient: false,
                }
            },
            shareability: Shareability::Shareability_OSH,
            tags: MemTagType::MemTag_Untagged,
            notagaccess: false,
            xs: true,
        }
    } else {
        MemoryAttributes {
            memtype: MemType::MemType_Device,
            device: DeviceType::DeviceType_nGnRnE,
            inner: MemAttrHints {
                attrs: MemAttr::MemAttr_NC,
                hints: MemHint::MemHint_No,
                transient: false,
            },
            outer: MemAttrHints {
                attrs: MemAttr::MemAttr_NC,
                hints: MemHint::MemHint_No,
                transient: false,
            },
            shareability: Shareability::Shareability_OSH,
            tags: MemTagType::MemTag_Untagged,
            notagaccess: false,
            xs: true,
        }
    }
}

/// The stage-1-disabled path: the output address is the virtual address
/// itself in the security state's default address space, with
/// policy-defined attributes. An instruction fetch under the
/// default-cacheable control takes a level-0 Translation fault; a virtual
/// address with bits set above the output-address size takes a level-0
/// AddressSize fault.
pub fn AArch64S1DisabledOutput(
    state: &ArchState,
    fault_in: FaultRecord,
    regime: Regime,
    va: u64,
    accdesc: AccessDescriptor,
    _aligned: bool,
) -> (r: (FaultRecord, AddressDescriptor))
    requires
        state.wf(),
        fault_in.is_clear(),
    ensures
        (r.0.statuscode == Fault::Fault_None) <==> (r.1.paddress is Some),
        r.0.statuscode == Fault::Fault_None ==> r.1.fault.is_clear(),
        r.1.vaddress == va,
        !r.0.is_clear() ==> r.1 == spec_faulty_descriptor(va, r.0),
        (r.0.statuscode == Fault::Fault_None || r.0.statuscode == Fault::Fault_Translation
            || r.0.statuscode == Fault::Fault_AddressSize),
        ({
            let wp = spec_s1_walkparams(*state, va);
            let dcfetch = spec_s1_dc_active(*state, regime) && accdesc.acctype
                == AccessType::AccessType_IFETCH;
            let oor = (va & spec_s1_disabled_region(wp, accdesc.acctype)) != 0;
            if dcfetch {
                r.0.statuscode == Fault::Fault_Translation && r.0.level == 0
            } else if oor {
                r.0.statuscode == Fault::Fault_AddressSize && r.0.level == 0
            } else {
                r.0.statuscode == Fault::Fault_None && r.1.paddress == Some(
                    FullAddress {
                        paspace: spec_pas_from_ss(accdesc.ss),
                        address: va & 0x000F_FFFF_FFFF_FFFFu64,
                    },
                ) && r.1.memattrs == spec_s1_disabled_memattrs(*state, regime, wp, accdesc.acctype)
                    && r.1.mecid == crate::shared_mec::spec_s1_disabled_output_mecid(
                    *state,
                    wp,
                    regime,
                    spec_pas_from_ss(accdesc.ss),
                )
            }
        }),
{
    let walkparams = crate::sysregs::AArch64GetS1TTWParams(state, regime, accdesc.ss, va);
    let mut fault = fault_in;
    fault.level = 0;
    let dc_active: bool = matches!(regime, Regime::Regime_EL10) && EL2Enabled(state)
        && state.hcr_dc;
    if dc_active && matches!(accdesc.acctype, AccessType::AccessType_IFETCH) {
        fault.statuscode = Fault::Fault_Translation;
        return (fault, CreateFaultyAddressDescriptor(va, fault));
    }
    let addrtop: u64 = if walkparams.tbi == 1 && !(walkparams.tbid == 1 && matches!(
        accdesc.acctype,
        AccessType::AccessType_IFETCH,
    )) {
        55
    } else {
        63
    };
    let upper: u64 = if addrtop == 63 {
        0xFFFF_FFFF_FFFF_FFFFu64
    } else {
        0x00FF_FFFF_FFFF_FFFFu64
    };
    let pasize: u64 = DecodePASize(walkparams.ps);
    proof {
        crate::bitops::lemma_shl1_pos(pasize);
    }
    let region: u64 = upper & !((1u64 << pasize) - 1);
    if (va & region) != 0 {
        fault.statuscode = Fault::Fault_AddressSize;
        return (fault, CreateFaultyAddressDescriptor(va, fault));
    }
    let paspace = PASpaceFromSS(accdesc.ss);
    let oa = FullAddress { paspace: paspace, address: va & 0x000F_FFFF_FFFF_FFFFu64 };
    let memattrs: MemoryAttributes = if dc_active {
        MemoryAttributes {
            memtype: MemType::MemType_Normal,
            device: DeviceType::DeviceType_GRE,
            inner: MemAttrHints {
                attrs: MemAttr::MemAttr_WB,
                hints: MemHint::MemHint_RWA,
                transient: false,
            },
            outer: MemAttrHints {
                attrs: MemAttr::MemAttr_WB,
                hints: MemHint::MemHint_RWA,
                transient: false,
            },
            shareability: Shareability::Shareability_ISH,
            tags: if walkparams.dct == 1 {
                MemTagType::MemTag_AllocationTagged
            } else {
                MemTagType::MemTag_Untagged
            },
            notagaccess: false,
            xs: false,
        }
    } else if matches!(accdesc.acctype, AccessType::AccessType_IFETCH) {
        let hints = if crate::sysregs::AArch64S1ICacheEnabled(state, regime) {
            MemAttrHints { attrs: MemAttr::MemAttr_WT, hints: MemHint::MemHint_RA, transient: false }
        } else {
            MemAttrHints { attrs: MemAttr::MemAttr_NC, hints: MemHint::MemHint_No, transient: false }
        };
        MemoryAttributes {
            memtype: MemType::MemType_Normal,
            device: DeviceType::DeviceType_GRE,
            inner: hints,
            outer: hints,
            shareability: Shareability::Shareability_OSH,
            tags: MemTagType::MemTag_Untagged,
            notagaccess: false,
            xs: true,
        }
    } else {
        MemoryAttributes {
            memtype: MemType::MemType_Device,
            device: DeviceType::DeviceType_nGnRnE,
            inner: MemAttrHints {
                attrs: MemAttr::MemAttr_NC,
                hints: MemHint::MemHint_No,
                transient: false,
            },
            outer: MemAttrHints {
                attrs: MemAttr::MemAttr_NC,
                hints: MemHint::MemHint_No,
                transient: false,
            },
            shareability: Shareability::Shareability_OSH,
            tags: MemTagType::MemTag_Untagged,
            notagaccess: false,
            xs: true,
        }
    };
    let mut ipa = CreateAddressDescriptor(va, oa, memattrs);
    ipa.mecid = crate::shared_mec::AArch64S1DisabledOutputMECID(state, walkparams, regime, paspace);
    (fault, ipa)
}

/// The memory attributes a stage-1 translation reports: the walk's recorded
/// attributes, forced to Normal Non-cacheable — preserving only the XS bit —
/// for instruction fetches against Device mappings or with the instruction
/// cache disabled, and for data accesses against Normal mappings with the
/// data cache disabled; the shareability is then the effective one.
pub open spec fn spec_s1_output_memattrs(
    icache_enabled: bool,
    dcache_enabled: bool,
    acctype: AccessType,
    walkattrs: MemoryAttributes,
) -> MemoryAttributes {
    let base = if acctype == AccessType::AccessType_IFETCH && (walkattrs.memtype
        == MemType::MemType_Device || !icache_enabled) {
        MemoryAttributes { xs: walkattrs.xs, ..spec_normal_nc_memattrs() }
    } else if acctype != AccessType::AccessType_IFETCH && !dcache_enabled && walkattrs.memtype
        == MemType::MemType_Normal {
        MemoryAttributes { xs: walkattrs.xs, ..spec_normal_nc_memattrs() }
    } else {
        walkattrs
    };
    MemoryAttributes { shareability: spec_effective_shareability(base), ..base }
}

/// Apply the stage-1 attribute forcing and the effective shareability to a
/// walk's recorded attributes.
pub fn S1OutputMemAttrs(
    icache_enabled: bool,
    dcache_enabled: bool,
    acctype: AccessType,
    walkattrs: MemoryAttributes,
) -> (r: MemoryAttributes)
    ensures
        r == spec_s1_output_memattrs(icache_enabled, dcache_enabled, acctype, walkattrs),
        (acctype == AccessType::AccessType_IFETCH && walkattrs.memtype == MemType::MemType_Device)
            ==> r == (MemoryAttributes { xs: walkattrs.xs, ..spec_normal_nc_memattrs() }),
        (r.memtype == MemType::MemType_Device || (r.inner.attrs == MemAttr::MemAttr_NC
            && r.outer.attrs == MemAttr::MemAttr_NC)) ==> r.shareability
            == Shareability::Shareability_OSH,
{
    let mut memattrs: MemoryAttributes;
    if matches!(acctype, AccessType::AccessType_IFETCH) && (matches!(
        walkattrs.memtype,
        MemType::MemType_Device,
    ) || !icache_enabled) {
        memattrs = NormalNCMemAttr();
        memattrs.xs = walkattrs.xs;
    } else if !matches!(acctype, AccessType::AccessType_IFETCH) && !dcache_enabled && matches!(
        walkattrs.memtype,
        MemType::MemType_Normal,
    ) {
        memattrs = NormalNCMemAttr();
        memattrs.xs = walkattrs.xs;
    } else {
        memattrs = walkattrs;
    }
    memattrs.shareability = EffectiveShareability(memattrs);
    memattrs
}

/// The memory attributes a stage-2 translation reports before combining:
/// forced to Normal Non-cacheable — preserving only the XS bit — for
/// stage-1 walk accesses to Device memory under the protected-table-walk
/// control, for instruction fetches against Device mappings or under the
/// stage-2 instruction-cacheability disable, and for data accesses against
/// Normal mappings with the stage-2 data cache disabled.
pub open spec fn spec_s2_output_memattrs(
    s2_dcache_enabled: bool,
    hcr_id: bool,
    ptw: u64,
    acctype: AccessType,
    walkattrs: MemoryAttributes,
) -> MemoryAttributes {
    let forced = (acctype == AccessType::AccessType_TTW && walkattrs.memtype
        == MemType::MemType_Device && ptw == 0) || (acctype == AccessType::AccessType_IFETCH && (
    walkattrs.memtype == MemType::MemType_Device || hcr_id)) || (acctype
        != AccessType::AccessType_IFETCH && walkattrs.memtype == MemType::MemType_Normal
        && !s2_dcache_enabled);
    if forced {
        MemoryAttributes { xs: walkattrs.xs, ..spec_normal_nc_memattrs() }
    } else {
        walkattrs
    }
}

/// Apply the stage-2 attribute forcing to a walk's recorded attributes.
pub fn S2OutputMemAttrs(
    s2_dcache_enabled: bool,
    hcr_id: bool,
    ptw: u64,
    acctype: AccessType,
    walkattrs: MemoryAttributes,
) -> (r: MemoryAttributes)
    ensures
        r == spec_s2_output_memattrs(s2_dcache_enabled, hcr_id, ptw, acctype, walkattrs),
        (acctype == AccessType::AccessType_IFETCH && walkattrs.memtype == MemType::MemType_Device)
            ==> r == (MemoryAttributes { xs: walkattrs.xs, ..spec_normal_nc_memattrs() }),
{
    let forced: bool = (matches!(acctype, AccessType::AccessType_TTW) && matches!(
        walkattrs.memtype,
        MemType::MemType_Device,
    ) && ptw == 0) || (matches!(acctype, AccessType::AccessType_IFETCH) && (matches!(
        walkattrs.memtype,
        MemType::MemType_Device,
    ) || hcr_id)) || (!matches!(acctype, AccessType::AccessType_IFETCH) && matches!(
        walkattrs.memtype,
        MemType::MemType_Normal,
    ) && !s2_dcache_enabled);
    if forced {
        let mut memattrs = NormalNCMemAttr();
        memattrs.xs = walkattrs.xs;
        memattrs
    } else {
        walkattrs
    }
}

/// Rank a cacheability: lower is more restrictive.
pub open spec fn spec_cache_rank(a: MemAttr) -> int {
    match a {
        MemAttr::MemAttr_NC => 0,
        MemAttr::MemAttr_WT => 1,
        MemAttr::MemAttr_WB => 2,
    }
}

/// The more restrictive of two cacheability hint sets.
pub open spec fn spec_combine_hints(a: MemAttrHints, b: MemAttrHints) -> MemAttrHints {
    if spec_cache_rank(a.attrs) <= spec_cache_rank(b.attrs) {
        a
    } else {
        b
    }
}

/// Rank a Device type: lower is more restrictive.
pub open spec fn spec_device_rank(d: DeviceType) -> int {
    match d {
        DeviceType::DeviceType_nGnRnE => 0,
        DeviceType::DeviceType_nGnRE => 1,
        DeviceType::DeviceType_nGRE => 2,
        DeviceType::DeviceType_GRE => 3,
    }
}

/// The more restrictive of two Device types.
pub open spec fn spec_combine_device(a: DeviceType, b: DeviceType) -> DeviceType {
    if spec_device_rank(a) <= spec_device_rank(b) {
        a
    } else {
        b
    }
}

/// Rank a shareability: higher is more restrictive.
pub open spec fn spec_share_rank(s: Shareability) -> int {
    match s {
        Shareability::Shareability_NSH => 0,
        Shareability::Shareability_ISH => 1,
        Shareability::Shareability_OSH => 2,
    }
}

/// The more restrictive of two shareabilities.
pub open spec fn spec_combine_share(a: Shareability, b: Shareability) -> Shareability {
    if spec_share_rank(a) >= spec_share_rank(b) {
        a
    } else {
        b
    }
}

/// Combine stage-1 and stage-2 memory attributes, most restrictive wins:
/// Device beats Normal and stronger Device ordering beats weaker; each
/// cacheability level takes the more restrictive hint set; shareability
/// takes the wider scope; tagging survives only on memory that stays
/// Write-back cacheable.
pub open spec fn spec_s2_combine_memattrs(
    s1_memattrs: MemoryAttributes,
    s2_memattrs: MemoryAttributes,
) -> MemoryAttributes {
    if s1_memattrs.memtype == MemType::MemType_Device || s2_memattrs.memtype
        == MemType::MemType_Device {
        MemoryAttributes {
            memtype: MemType::MemType_Device,
            device: if s1_memattrs.memtype == MemType::MemType_Device && s2_memattrs.memtype
                == MemType::MemType_Device {
                spec_combine_device(s1_memattrs.device, s2_memattrs.device)
            } else if s1_memattrs.memtype == MemType::MemType_Device {
                s1_memattrs.device
            } else {
                s2_memattrs.device
            },
            inner: crate::walk::spec_nc_hints(),
            outer: crate::walk::spec_nc_hints(),
            shareability: Shareability::Shareability_OSH,
            tags: MemTagType::MemTag_Untagged,
            notagaccess: s1_memattrs.notagaccess || s2_memattrs.notagaccess,
            xs: s1_memattrs.xs || s2_memattrs.xs,
        }
    } else {
        let inner = spec_combine_hints(s1_memattrs.inner, s2_memattrs.inner);
        let outer = spec_combine_hints(s1_memattrs.outer, s2_memattrs.outer);
        MemoryAttributes {
            memtype: MemType::MemType_Normal,
            device: DeviceType::DeviceType_GRE,
            inner: inner,
            outer: outer,
            shareability: spec_combine_share(s1_memattrs.shareability, s2_memattrs.shareability),
            tags: if s1_memattrs.tags == MemTagType::MemTag_AllocationTagged && inner.attrs
                == MemAttr::MemAttr_WB && outer.attrs == MemAttr::MemAttr_WB {
                MemTagType::MemTag_AllocationTagged
            } else {
                MemTagType::MemTag_Untagged
            },
            notagaccess: s1_memattrs.notagaccess || s2_memattrs.notagaccess,
            xs: s1_memattrs.xs || s2_memattrs.xs,
        }
    }
}

/// Rank a cacheability, restrictive first.
fn cache_rank(a: MemAttr) -> (r: u64)
    ensures
        r == spec_cache_rank(a),
{
    match a {
        MemAttr::MemAttr_NC => 0,
        MemAttr::MemAttr_WT => 1,
        MemAttr::MemAttr_WB => 2,
    }
}

/// Choose the more restrictive of two cacheability hint sets.
fn combine_hints(a: MemAttrHints, b: MemAttrHints) -> (r: MemAttrHints)
    ensures
        r == spec_combine_hints(a, b),
{
    if cache_rank(a.attrs) <= cache_rank(b.attrs) {
        a
    } else {
        b
    }
}

/// Rank a Device type, restrictive first.
fn device_rank(d: DeviceType) -> (r: u64)
    ensures
        r == spec_device_rank(d),
{
    match d {
        DeviceType::DeviceType_nGnRnE => 0,
        DeviceType::DeviceType_nGnRE => 1,
        DeviceType::DeviceType_nGRE => 2,
        DeviceType::DeviceType_GRE => 3,
    }
}

/// Rank a shareability, widest last.
fn share_rank(s: Shareability) -> (r: u64)
    ensures
        r == spec_share_rank(s),
{
    match s {
        Shareability::Shareability_NSH => 0,
        Shareability::Shareability_ISH => 1,
        Shareability::Shareability_OSH => 2,
    }
}

/// Combine stage-1 and stage-2 memory attributes with the
/// most-restrictive-wins policy.
pub fn S2CombineS1MemAttrs(
    s1_memattrs: MemoryAttributes,
    s2_memattrs: MemoryAttributes,
) -> (r: MemoryAttributes)
    ensures
        r == spec_s2_combine_memattrs(s1_memattrs, s2_memattrs),
{
    if matches!(s1_memattrs.memtype, MemType::MemType_Device) || matches!(
        s2_memattrs.memtype,
        MemType::MemType_Device,
    ) {
        let device: DeviceType = if matches!(s1_memattrs.memtype, MemType::MemType_Device)
            && matches!(s2_memattrs.memtype, MemType::MemType_Device) {
            if device_rank(s1_memattrs.device) <= device_rank(s2_memattrs.device) {
                s1_memattrs.device
            } else {
                s2_memattrs.device
            }
        } else if matches!(s1_memattrs.memtype, MemType::MemType_Device) {
            s1_memattrs.device
        } else {
            s2_memattrs.device
        };
        MemoryAttributes {
            memtype: MemType::MemType_Device,
            device: device,
            inner: MemAttrHints {
                attrs: MemAttr::MemAttr_NC,
                hints: MemHint::MemHint_No,
                transient: false,
            },
            outer: MemAttrHints {
                attrs: MemAttr::MemAttr_NC,
                hints: MemHint::MemHint_No,
                transient: false,
            },
            shareability: Shareability::Shareability_OSH,
            tags: MemTagType::MemTag_Untagged,
            notagaccess: s1_memattrs.notagaccess || s2_memattrs.notagaccess,
            xs: s1_memattrs.xs || s2_memattrs.xs,
        }
    } else {
        let inner = combine_hints(s1_memattrs.inner, s2_memattrs.inner);
        let outer = combine_hints(s1_memattrs.outer, s2_memattrs.outer);
        let shareability = if share_rank(s1_memattrs.shareability) >= share_rank(
            s2_memattrs.shareability,
        ) {
            s1_memattrs.shareability
        } else {
            s2_memattrs.shareability
        };
        MemoryAttributes {
            memtype: MemType::MemType_Normal,
            device: DeviceType::DeviceType_GRE,
            inner: inner,
            outer: outer,
            shareability: shareability,
            tags: if matches!(s1_memattrs.tags, MemTagType::MemTag_AllocationTagged) && matches!(
                inner.attrs,
                MemAttr::MemAttr_WB,
            ) && matches!(outer.attrs, MemAttr::MemAttr_WB) {
                MemTagType::MemTag_AllocationTagged
            } else {
                MemTagType::MemTag_Untagged
            },
            notagaccess: s1_memattrs.notagaccess || s2_memattrs.notagaccess,
            xs: s1_memattrs.xs || s2_memattrs.xs,
        }
    }
}

/// The stage-1 walk parameters a translation actually walks with: the
/// active half-range bank, its input-size field clamped.
pub open spec fn spec_s1_effective_walkparams(state: ArchState, va: u64) -> S1TTWParams {
    spec_s1_clamped_walkparams(spec_s1_walkparams(state, va))
}

/// Whether every administrative stage-1 gate admits the access: stage 1
/// enabled, no input-size fault, the address in range, and none of the EL0
/// disables apply.
pub open spec fn spec_s1_gates_pass(
    state: ArchState,
    regime: Regime,
    va: u64,
    accdesc: AccessDescriptor,
) -> bool {
    spec_s1_enabled(state, regime) && !spec_s1_txsz_faults(spec_s1_walkparams(state, va))
        && !spec_va_out_of_range(va, accdesc.acctype, regime, spec_s1_effective_walkparams(state, va))
        && !(accdesc.el == PrivilegeLevel::PL0 && spec_s1_walkparams(state, va).e0pd == 1) && !(
    accdesc.el == PrivilegeLevel::PL0 && state.feat_tme && spec_s1_walkparams(state, va).nfd == 1
        && accdesc.transactional) && !(accdesc.el == PrivilegeLevel::PL0 && state.feat_sve
        && spec_s1_walkparams(state, va).nfd == 1 && ((accdesc.nonfault && accdesc.contiguous) || (
    accdesc.firstfault && !accdesc.first && !accdesc.contiguous)))
}

/// The stage-1 walk outcome the configuration and the tables in `mem`
/// determine for `va`.
#[verifier::opaque]
pub open spec fn spec_s1_outcome(state: ArchState, mem: PhysMem, va: u64)
    -> crate::walk::WalkOutcome {
    crate::walk::spec_s1_walk(
        mem,
        spec_s1_effective_walkparams(state, va),
        va,
        crate::sysregs::spec_s1_ttb(state, va),
    )
}

/// The fault status after the checks that follow a successful stage-1 walk:
/// the alignment check comes first, the permission check runs only while no
/// fault stands.
#[verifier::opaque]
pub open spec fn spec_s1_checked_status(
    state: ArchState,
    mem: PhysMem,
    regime: Regime,
    va: u64,
    aligned: bool,
    accdesc: AccessDescriptor,
) -> Fault {
    let wp = spec_s1_effective_walkparams(state, va);
    let o = spec_s1_outcome(state, mem, va);
    if crate::walk::spec_s1_alignment_fault(accdesc, aligned, wp.ntlsmd, o.walkstate.memattrs) {
        Fault::Fault_Alignment
    } else if !crate::walk::spec_s1_permit(regime, o.walkstate, wp, accdesc) {
        Fault::Fault_Permission
    } else {
        Fault::Fault_None
    }
}

/// The low descriptor word after the hardware access-flag and dirty-state
/// updates the stage-1 configuration calls for: the access flag is set, and
/// the not-dirty bit cleared for a plain write, only while no fault stands.
pub open spec fn spec_s1_updated_low(
    walkparams: S1TTWParams,
    low: u64,
    fault_clear: bool,
    accdesc: AccessDescriptor,
) -> u64 {
    let after_af = if walkparams.ha == 1 && fault_clear {
        low | 0x400
    } else {
        low
    };
    if fault_clear && walkparams.ha == 1 && walkparams.hd == 1 && (walkparams.pie == 1 || (low
        >> 51) & 1 == 1) && accdesc.write && !(accdesc.acctype == AccessType::AccessType_AT
        || accdesc.acctype == AccessType::AccessType_IC || accdesc.acctype
        == AccessType::AccessType_DC) {
        after_af & !0x80u64
    } else {
        after_af
    }
}

/// Whether the walk's leaf descriptor needs no hardware update for this
/// stage-1 access: the translation then never writes memory back.
#[verifier::opaque]
pub open spec fn spec_s1_no_update(
    state: ArchState,
    mem: PhysMem,
    va: u64,
    accdesc: AccessDescriptor,
) -> bool {
    let o = spec_s1_outcome(state, mem, va);
    spec_s1_updated_low(
        spec_s1_effective_walkparams(state, va),
        (o.descriptor as u64),
        true,
        accdesc,
    ) == (o.descriptor as u64)
}

/// Whether an LS64 access is rejected against these final attributes:
/// single-copy 64-byte accesses must target Device or fully Non-cacheable
/// memory.
pub open spec fn spec_ls64_reject(attrs: MemoryAttributes, accdesc: AccessDescriptor) -> bool {
    accdesc.ls64 && attrs.memtype == MemType::MemType_Normal && (attrs.inner.attrs
        != MemAttr::MemAttr_NC || attrs.outer.attrs != MemAttr::MemAttr_NC)
}

/// The descriptor a successful stage-1 translation returns: the output
/// address splices the virtual address into the leaf's base, the attributes
/// are the forced walk attributes, and the context id comes from the
/// stage-1 tagging rule over the leaf descriptor.
#[verifier::opaque]
pub open spec fn spec_s1_success_result(
    state: ArchState,
    mem: PhysMem,
    regime: Regime,
    va: u64,
    accdesc: AccessDescriptor,
) -> AddressDescriptor {
    let wp = spec_s1_effective_walkparams(state, va);
    let o = spec_s1_outcome(state, mem, va);
    let ws = o.walkstate;
    let attrs = spec_s1_output_memattrs(
        spec_regime_sctlr(state, regime).i,
        spec_regime_sctlr(state, regime).c,
        accdesc.acctype,
        ws.memattrs,
    );
    let msb = ((crate::shared_vmsa::spec_translation_size(wp.d128, wp.tgx, ws.level)
        + if ws.contiguous {
        crate::shared_vmsa::spec_contiguous_size(wp.d128, wp.tgx, ws.level)
    } else {
        0
    }) as u64);
    let oa = FullAddress {
        paspace: ws.baseaddress.paspace,
        address: crate::shared_vmsa::spec_stage_oa_address(va, ws.baseaddress.address, msb),
    };
    AddressDescriptor {
        fault: crate::shared_memory::spec_no_fault_record(),
        memattrs: attrs,
        paddress: Some(oa),
        s1assured: ws.s1assured,
        s2fs1mro: false,
        mecid: crate::shared_mec::spec_s1_output_mecid(
            state,
            wp,
            regime,
            crate::shared_vmsa::spec_va_range(va),
            oa.paspace,
            crate::shared_mec::spec_descriptor_amec(wp.d128, o.descriptor),
        ),
        vaddress: va,
    }
}

/// The prepared stage-2 fault fields: a clear status, the stage-2 marks,
/// and the intermediate address under translation.
pub open spec fn spec_s2_prepared_fault(
    fault_in: FaultRecord,
    ipa: AddressDescriptor,
    accdesc: AccessDescriptor,
) -> FaultRecord {
    FaultRecord {
        statuscode: Fault::Fault_None,
        secondstage: true,
        s2fs1walk: accdesc.acctype == AccessType::AccessType_TTW,
        ipaddress: ipa.paddress.unwrap(),
        ..fault_in
    }
}

/// The stage-2 walk outcome the configuration and the tables in `mem`
/// determine for the stage-1 output `ipa`.
#[verifier::opaque]
pub open spec fn spec_s2_outcome(state: ArchState, mem: PhysMem, ipa: AddressDescriptor)
    -> crate::walk::WalkOutcome {
    crate::walk::spec_s2_walk(
        mem,
        spec_s2_clamped_walkparams(state.s2_params),
        ipa.paddress.unwrap().address,
        state.s2_ttb,
        ipa.paddress.unwrap().paspace,
    )
}

/// The fault status after the checks that follow a successful stage-2 walk:
/// alignment first, then the stage-2 permissions.
#[verifier::opaque]
pub open spec fn spec_s2_checked_status(
    state: ArchState,
    mem: PhysMem,
    ipa: AddressDescriptor,
    aligned: bool,
    accdesc: AccessDescriptor,
) -> Fault {
    let o = spec_s2_outcome(state, mem, ipa);
    if crate::walk::spec_s2_alignment_fault(accdesc, aligned, o.walkstate.memattrs) {
        Fault::Fault_Alignment
    } else if !crate::walk::spec_s2_permit(o.walkstate, accdesc) {
        Fault::Fault_Permission
    } else {
        Fault::Fault_None
    }
}

/// The low descriptor word after the hardware updates the stage-2
/// configuration calls for: the access flag and, for a plain write under
/// the dirty-state controls, the write-permission/dirty bit are set.
pub open spec fn spec_s2_updated_low(
    walkparams: S2TTWParams,
    low: u64,
    fault_clear: bool,
    accdesc: AccessDescriptor,
) -> u64 {
    let after_af = if walkparams.ha == 1 && fault_clear {
        low | 0x400
    } else {
        low
    };
    if fault_clear && walkparams.ha == 1 && walkparams.hd == 1 && (walkparams.s2pie == 1 || (low
        >> 51) & 1 == 1) && accdesc.write && !(accdesc.acctype == AccessType::AccessType_AT
        || accdesc.acctype == AccessType::AccessType_IC || accdesc.acctype
        == AccessType::AccessType_DC) {
        after_af | 0x80
    } else {
        after_af
    }
}

/// Whether the stage-2 leaf descriptor needs no hardware update for this
/// access.
#[verifier::opaque]
pub open spec fn spec_s2_no_update(
    state: ArchState,
    mem: PhysMem,
    ipa: AddressDescriptor,
    accdesc: AccessDescriptor,
) -> bool {
    let o = spec_s2_outcome(state, mem, ipa);
    spec_s2_updated_low(
        spec_s2_clamped_walkparams(state.s2_params),
        (o.descriptor as u64),
        true,
        accdesc,
    ) == (o.descriptor as u64)
}

/// The stage-2 walk attributes after the administrative forcing, before any
/// combination with the stage-1 attributes.
#[verifier::opaque]
pub open spec fn spec_s2_forced_attrs(
    state: ArchState,
    mem: PhysMem,
    ipa: AddressDescriptor,
    accdesc: AccessDescriptor,
) -> MemoryAttributes {
    spec_s2_output_memattrs(
        !state.hcr_cd,
        state.hcr_id,
        spec_s2_clamped_walkparams(state.s2_params).ptw,
        accdesc.acctype,
        spec_s2_outcome(state, mem, ipa).walkstate.memattrs,
    )
}

/// The descriptor a successful stage-2 translation returns: the output
/// address splices the intermediate address into the leaf's base, the
/// attributes are the forced stage-2 attributes, combined with stage 1's
/// unless forced write-back stands, the mostly-read-only flag reports the
/// stage-2 permissions, and the context id follows the stage-2 tagging rule.
#[verifier::opaque]
pub open spec fn spec_s2_success_result(
    state: ArchState,
    mem: PhysMem,
    ipa: AddressDescriptor,
    accdesc: AccessDescriptor,
) -> AddressDescriptor {
    let wp = spec_s2_clamped_walkparams(state.s2_params);
    let o = spec_s2_outcome(state, mem, ipa);
    let ws = o.walkstate;
    let s2attrs = spec_s2_forced_attrs(state, mem, ipa, accdesc);
    let attrs = if wp.fwb == 0 {
        spec_s2_combine_memattrs(ipa.memattrs, s2attrs)
    } else {
        s2attrs
    };
    let msb = ((crate::shared_vmsa::spec_translation_size(wp.d128, wp.tgx, ws.level)
        + if ws.contiguous {
        crate::shared_vmsa::spec_contiguous_size(wp.d128, wp.tgx, ws.level)
    } else {
        0
    }) as u64);
    let oa = FullAddress {
        paspace: ws.baseaddress.paspace,
        address: crate::shared_vmsa::spec_stage_oa_address(
            ipa.paddress.unwrap().address,
            ws.baseaddress.address,
            msb,
        ),
    };
    AddressDescriptor {
        fault: crate::shared_memory::spec_no_fault_record(),
        memattrs: attrs,
        paddress: Some(oa),
        s1assured: false,
        s2fs1mro: crate::walk::spec_s2_mro(ws),
        mecid: crate::shared_mec::spec_s2_output_mecid(
            state,
            wp,
            oa.paspace,
            crate::shared_mec::spec_descriptor_amec(wp.d128, o.descriptor),
        ),
        vaddress: ipa.vaddress,
    }
}

/// Translate a stage-1 intermediate-physical address to a physical address
/// and combine memory attributes. Entered only for the EL1&0 regime with an
/// enabled EL2; with stage-2 translation disabled the input descriptor is
/// returned unchanged. The walk's hardware access-flag and dirty-state
/// updates run the same bounded compare-and-swap convergence loop as
/// stage 1, and a dirty transition is logged to the hardware-dirty-state
/// tracking structure, whose non-abort failure only suppresses the dirty
/// update.
#[verifier::rlimit(100)]
#[verifier::spinoff_prover]
pub fn AArch64S2Translate(
    state: &ArchState,
    mem: &mut PhysMem,
    hdbss: &mut Hdbss,
    fault_in: FaultRecord,
    ipa: AddressDescriptor,
    s1aarch64: bool,
    aligned: bool,
    accdesc: AccessDescriptor,
) -> (r: (FaultRecord, AddressDescriptor))
    requires
        state.wf(),
        old(mem).wf(),
        ipa.paddress is Some,
        ipa.fault.is_clear(),
    ensures
        final(mem).wf(),
        final(mem).base == old(mem).base,
        final(mem).words@.len() == old(mem).words@.len(),
        (r.0.statuscode == Fault::Fault_None) <==> (r.1.paddress is Some),
        r.0.statuscode == Fault::Fault_None ==> r.1.fault.is_clear(),
        r.1.vaddress == ipa.vaddress,
        r.0.secondstage,
        r.0.s2fs1walk == (accdesc.acctype == AccessType::AccessType_TTW),
        state.s2_params.vm != 1 ==> (r.1 == ipa && r.0.statuscode == Fault::Fault_None
            && *final(mem) == *old(mem) && *final(hdbss) == *old(hdbss)),
        (state.s2_params.vm == 1 && spec_s2_txsz_faults(state.s2_params)) ==> (r.0.statuscode
            == Fault::Fault_Translation && r.0.level == 0),
        (state.s2_params.vm == 1 && !spec_s2_txsz_faults(state.s2_params) && spec_ipa_out_of_range(
            ipa.paddress.unwrap().address,
            spec_s2_clamped_walkparams(state.s2_params),
        )) ==> (r.0.statuscode == Fault::Fault_Translation && r.0.level == 0),
        state.s2_params.hdbss != 1 ==> *final(hdbss) == *old(hdbss),
        r.0 == (FaultRecord {
            statuscode: r.0.statuscode,
            level: r.0.level,
            ..spec_s2_prepared_fault(fault_in, ipa, accdesc)
        }),
        !r.0.is_clear() ==> r.1 == spec_faulty_descriptor(ipa.vaddress, r.0),
        ({
            let o = spec_s2_outcome(*state, *old(mem), ipa);
            let checked = spec_s2_checked_status(*state, *old(mem), ipa, aligned, accdesc);
            let prepared = spec_s2_prepared_fault(fault_in, ipa, accdesc);
            (state.s2_params.vm == 1 && !spec_s2_txsz_faults(state.s2_params)
                && !spec_ipa_out_of_range(
                ipa.paddress.unwrap().address,
                spec_s2_clamped_walkparams(state.s2_params),
            )) ==> ((o.fault != Fault::Fault_None ==> r.0 == (FaultRecord {
                statuscode: o.fault,
                level: o.level,
                ..prepared
            })) && ((o.fault == Fault::Fault_None && checked != Fault::Fault_None) ==> r.0 == (
            FaultRecord { statuscode: checked, level: o.level, ..prepared })) && ((o.fault
                == Fault::Fault_None && checked == Fault::Fault_None && spec_s2_no_update(
                *state,
                *old(mem),
                ipa,
                accdesc,
            )) ==> (if spec_ls64_reject(spec_s2_forced_attrs(*state, *old(mem), ipa, accdesc),
                accdesc) {
                r.0 == (FaultRecord {
                    statuscode: Fault::Fault_Exclusive,
                    level: o.level,
                    ..prepared
                })
            } else {
                r.0.statuscode == Fault::Fault_None && r.1 == spec_s2_success_result(
                    *state,
                    *old(mem),
                    ipa,
                    accdesc,
                )
            })))
        }),
{
    let walkparams = crate::sysregs::AArch64GetS2TTWParams(
        state,
        accdesc.ss,
        ipa.paddress.unwrap().paspace,
        s1aarch64,
    );
    let mut fault = fault_in;
    fault.statuscode = Fault::Fault_None;
    fault.secondstage = true;
    fault.s2fs1walk = matches!(accdesc.acctype, AccessType::AccessType_TTW);
    fault.ipaddress = ipa.paddress.unwrap();
    if walkparams.vm != 1 {
        // Stage-2 translation is disabled: the stage-1 result passes through.
        return (fault, ipa);
    }
    let s2mintxsz = AArch64S2MinTxSZ(walkparams.d128, walkparams.ds, walkparams.tgx, s1aarch64);
    let s2maxtxsz = AArch64MaxTxSZ(walkparams.tgx);
    if AArch64S2TxSZFaults(walkparams, s1aarch64) {
        fault.statuscode = Fault::Fault_Translation;
        fault.level = 0;
        return (fault, CreateFaultyAddressDescriptor(ipa.vaddress, fault));
    }
    let mut wp = walkparams;
    if wp.txsz < s2mintxsz {
        wp.txsz = s2mintxsz;
    } else if wp.txsz > s2maxtxsz {
        wp.txsz = s2maxtxsz;
    }
    if AArch64IPAIsOutOfRange(ipa.paddress.unwrap().address, wp) {
        fault.statuscode = Fault::Fault_Translation;
        fault.level = 0;
        return (fault, CreateFaultyAddressDescriptor(ipa.vaddress, fault));
    }
    let mut walkstate: TTWState = crate::walk::empty_walk_state();
    let mut descriptor: u128 = 0;
    let mut s2fs1mro: bool = false;
    let limit: usize = mem.racing.len();
    let mut attempts: usize = 0;
    let ghost mut first_pass: bool = true;
    loop
        invariant_except_break
            fault.statuscode == Fault::Fault_None,
        invariant
            state.wf(),
            mem.wf(),
            mem.base == old(mem).base,
            mem.words@.len() == old(mem).words@.len(),
            wp.wf(),
            crate::walk::spec_s1_min_txsz(wp.d128, wp.tgx) <= wp.txsz <= 39,
            ipa.paddress is Some,
            attempts <= limit,
            fault.secondstage,
            fault.s2fs1walk == (accdesc.acctype == AccessType::AccessType_TTW),
            fault == (FaultRecord {
                statuscode: fault.statuscode,
                level: fault.level,
                ..spec_s2_prepared_fault(fault_in, ipa, accdesc)
            }),
            first_pass ==> *mem == *old(mem),
            !first_pass ==> (spec_s2_outcome(*state, *old(mem), ipa).fault == Fault::Fault_None
                && spec_s2_checked_status(*state, *old(mem), ipa, aligned, accdesc)
                == Fault::Fault_None && !spec_s2_no_update(*state, *old(mem), ipa, accdesc)),
            state.s2_params.vm == 1,
            !spec_s2_txsz_faults(state.s2_params),
            wp == spec_s2_clamped_walkparams(state.s2_params),
            !spec_ipa_out_of_range(
                ipa.paddress.unwrap().address,
                spec_s2_clamped_walkparams(state.s2_params),
            ),
            wp.hdbss == state.s2_params.hdbss,
            state.s2_params.hdbss != 1 ==> *hdbss == *old(hdbss),
        ensures
            walkstate.wf(),
            mem.wf(),
            mem.base == old(mem).base,
            mem.words@.len() == old(mem).words@.len(),
            fault.secondstage,
            fault.s2fs1walk == (accdesc.acctype == AccessType::AccessType_TTW),
            (fault.statuscode == Fault::Fault_None || fault.statuscode == Fault::Fault_Alignment
                || fault.statuscode == Fault::Fault_Permission),
            state.s2_params.hdbss != 1 ==> *hdbss == *old(hdbss),
            fault == (FaultRecord {
                statuscode: fault.statuscode,
                level: fault.level,
                ..spec_s2_prepared_fault(fault_in, ipa, accdesc)
            }),
            first_pass ==> spec_s2_outcome(*state, *old(mem), ipa).fault == Fault::Fault_None,
            ({
                let o = spec_s2_outcome(*state, *old(mem), ipa);
                let checked = spec_s2_checked_status(*state, *old(mem), ipa, aligned, accdesc);
                (first_pass && o.fault == Fault::Fault_None && spec_s2_updated_low(
                    wp,
                    (o.descriptor as u64),
                    checked == Fault::Fault_None,
                    accdesc,
                ) == (o.descriptor as u64)) ==> (*mem == *old(mem) && walkstate == o.walkstate
                    && descriptor == o.descriptor && (checked == Fault::Fault_None ==> s2fs1mro
                    == crate::walk::spec_s2_mro(o.walkstate)) && fault == (FaultRecord {
                    statuscode: checked,
                    level: o.level,
                    ..spec_s2_prepared_fault(fault_in, ipa, accdesc)
                }))
            }),
            !first_pass ==> (spec_s2_outcome(*state, *old(mem), ipa).fault == Fault::Fault_None
                && spec_s2_checked_status(*state, *old(mem), ipa, aligned, accdesc)
                == Fault::Fault_None && !spec_s2_no_update(*state, *old(mem), ipa, accdesc)),
        decreases limit - attempts,
    {
        let walked = AArch64S2Walk(state, mem, fault, ipa, wp, accdesc);
        fault = walked.0;
        let descpaddr = walked.1;
        walkstate = walked.2;
        descriptor = walked.3;
        proof {
            reveal(spec_s2_outcome);
        }
        if !matches!(fault.statuscode, Fault::Fault_None) {
            return (fault, CreateFaultyAddressDescriptor(ipa.vaddress, fault));
        }
        if AArch64S2HasAlignmentFault(accdesc, aligned, walkstate.memattrs) {
            fault.statuscode = Fault::Fault_Alignment;
        }
        if matches!(fault.statuscode, Fault::Fault_None) {
            let checked = AArch64S2CheckPermissions(fault, walkstate, wp, ipa, accdesc);
            fault = checked.0;
            s2fs1mro = checked.1;
        }
        let old_low: u64 = #[verifier::truncate] (descriptor as u64);
        let mut new_low: u64 = old_low;
        if wp.ha == 1 && AArch64SettingAccessFlagPermitted(fault) {
            // Set the descriptor's access flag.
            new_low = new_low | 0x400;
        }
        if AArch64SettingDirtyStatePermitted(fault) && wp.ha == 1 && wp.hd == 1 && (wp.s2pie == 1
            || (old_low >> 51) & 1 == 1) && accdesc.write && !(matches!(
            accdesc.acctype,
            AccessType::AccessType_AT,
        ) || matches!(accdesc.acctype, AccessType::AccessType_IC) || matches!(
            accdesc.acctype,
            AccessType::AccessType_DC,
        )) {
            // Set the stage-2 write-permission/dirty bit.
            new_low = new_low | 0x80;
        }
        proof {
            reveal(spec_s2_outcome);
            reveal(spec_s2_checked_status);
            reveal(spec_s2_no_update);
            assert(new_low == spec_s2_updated_low(wp, old_low, fault.is_clear(), accdesc));
            if first_pass {
                let o = spec_s2_outcome(*state, *old(mem), ipa);
                assert(walkstate == o.walkstate);
                assert(descriptor == o.descriptor);
                assert(spec_s2_checked_status(*state, *old(mem), ipa, aligned, accdesc)
                    == fault.statuscode);
            }
        }
        if new_low == old_low {
            break ;
        }
        proof {
            // A write-back is needed: the pristine-memory record of the
            // first pass no longer applies.
            reveal(spec_s2_outcome);
            reveal(spec_s2_no_update);
            if first_pass {
                assert(!spec_s2_no_update(*state, *old(mem), ipa, accdesc));
            }
            first_pass = false;
        }
        if wp.hdbss == 1 && (old_low >> 7) & 1 == 0 && (new_low >> 7) & 1 == 1 {
            let appended = AppendToHDBSS(hdbss, fault, ipa.paddress.unwrap(), wp, walkstate.level);
            fault = appended.0;
            if !matches!(fault.statuscode, Fault::Fault_None) {
                // An external abort on the tracking structure is fatal.
                return (fault, CreateFaultyAddressDescriptor(ipa.vaddress, fault));
            }
            if !appended.1 {
                // The structure is full: suppress only the dirty update.
                new_low = (new_low & !0x80u64) | (old_low & 0x80u64);
            }
        }
        if new_low == old_low {
            break ;
        }
        let new_desc: u128 = replace_low_word(descriptor, new_low);
        let swapped = AArch64MemSwapTableDesc(
            mem,
            fault,
            descriptor,
            new_desc,
            wp.ee,
            descpaddr.paddress.unwrap().address,
        );
        fault = swapped.0;
        let mem_desc: u128 = swapped.1;
        if !matches!(fault.statuscode, Fault::Fault_None) {
            return (fault, CreateFaultyAddressDescriptor(ipa.vaddress, fault));
        }
        if mem_desc == new_desc {
            break ;
        }
        if attempts >= limit {
            // The scheduled interference is exhausted and the update still
            // did not converge.
            fault.statuscode = Fault::Fault_HWUpdateAccessFlag;
            fault.level = walkstate.level;
            return (fault, CreateFaultyAddressDescriptor(ipa.vaddress, fault));
        }
        attempts = attempts + 1;
    }
    if !matches!(fault.statuscode, Fault::Fault_None) {
        proof {
            reveal(spec_s2_no_update);
            let o = spec_s2_outcome(*state, *old(mem), ipa);
            let checked = spec_s2_checked_status(*state, *old(mem), ipa, aligned, accdesc);
            if checked != Fault::Fault_None {
                // With a fault standing, neither hardware update applies.
                assert(spec_s2_updated_low(wp, (o.descriptor as u64), false, accdesc) == (
                o.descriptor as u64));
            }
            if first_pass && o.fault == Fault::Fault_None && checked == Fault::Fault_None
                && spec_s2_no_update(*state, *old(mem), ipa, accdesc) {
                // The first pass then converged without a fault: this exit
                // is unreachable.
                assert(fault == (FaultRecord {
                    statuscode: checked,
                    level: o.level,
                    ..spec_s2_prepared_fault(fault_in, ipa, accdesc)
                }));
            }
        }
        return (fault, CreateFaultyAddressDescriptor(ipa.vaddress, fault));
    }
    let oa = StageOA(ipa.paddress.unwrap().address, wp.d128, wp.tgx, walkstate);
    let s2_memattrs = S2OutputMemAttrs(
        crate::sysregs::S2DCacheEnabled(state),
        state.hcr_id,
        wp.ptw,
        accdesc.acctype,
        walkstate.memattrs,
    );
    proof {
        reveal(spec_s2_forced_attrs);
        reveal(spec_s2_outcome);
        reveal(spec_s2_checked_status);
        reveal(spec_s2_no_update);
        let o = spec_s2_outcome(*state, *old(mem), ipa);
        let checked = spec_s2_checked_status(*state, *old(mem), ipa, aligned, accdesc);
        if first_pass && o.fault == Fault::Fault_None && checked == Fault::Fault_None
            && spec_s2_no_update(*state, *old(mem), ipa, accdesc) {
            assert(s2_memattrs == spec_s2_forced_attrs(*state, *old(mem), ipa, accdesc));
        }
    }
    if accdesc.ls64 && matches!(s2_memattrs.memtype, MemType::MemType_Normal) {
        if !matches!(s2_memattrs.inner.attrs, MemAttr::MemAttr_NC) || !matches!(
            s2_memattrs.outer.attrs,
            MemAttr::MemAttr_NC,
        ) {
            fault.statuscode = Fault::Fault_Exclusive;
            proof {
                reveal(spec_s2_no_update);
                let o = spec_s2_outcome(*state, *old(mem), ipa);
                let checked = spec_s2_checked_status(*state, *old(mem), ipa, aligned, accdesc);
                if first_pass && o.fault == Fault::Fault_None && checked == Fault::Fault_None
                    && spec_s2_no_update(*state, *old(mem), ipa, accdesc) {
                    assert(spec_ls64_reject(
                        spec_s2_forced_attrs(*state, *old(mem), ipa, accdesc),
                        accdesc,
                    ));
                    assert(fault == (FaultRecord {
                        statuscode: Fault::Fault_Exclusive,
                        level: o.level,
                        ..spec_s2_prepared_fault(fault_in, ipa, accdesc)
                    }));
                }
            }
            return (fault, CreateFaultyAddressDescriptor(ipa.vaddress, fault));
        }
    }
    let memattrs = if wp.fwb == 0 {
        S2CombineS1MemAttrs(ipa.memattrs, s2_memattrs)
    } else {
        s2_memattrs
    };
    let mut pa = CreateAddressDescriptor(ipa.vaddress, oa, memattrs);
    pa.s2fs1mro = s2fs1mro;
    pa.mecid = crate::shared_mec::AArch64S2OutputMECID(state, wp, oa.paspace, descriptor);
    proof {
        reveal(spec_s2_success_result);
        reveal(spec_s2_outcome);
        reveal(spec_s2_checked_status);
        reveal(spec_s2_no_update);
        let o = spec_s2_outcome(*state, *old(mem), ipa);
        let checked = spec_s2_checked_status(*state, *old(mem), ipa, aligned, accdesc);
        if first_pass && o.fault == Fault::Fault_None && checked == Fault::Fault_None
            && spec_s2_no_update(*state, *old(mem), ipa, accdesc) {
            assert(pa == spec_s2_success_result(*state, *old(mem), ipa, accdesc));
        }
    }
    (fault, pa)
}

/// Translate a virtual address to a stage-1 output address (an intermediate-
/// physical or physical address, by regime) under the given regime: run the
/// administrative gates, walk the tables through the bounded hardware-update
/// convergence loop, and derive the reported attributes. A fault record that
/// already reports a fault short-circuits the stage and is forwarded.
#[verifier::rlimit(100)]
#[verifier::spinoff_prover]
pub fn AArch64S1Translate(
    state: &ArchState,
    mem: &mut PhysMem,
    hdbss: &mut Hdbss,
    cfi: &mut CfiState,
    fault_in: FaultRecord,
    regime: Regime,
    va: u64,
    aligned: bool,
    accdesc: AccessDescriptor,
) -> (r: (FaultRecord, AddressDescriptor))
    requires
        state.wf(),
        old(mem).wf(),
    ensures
        final(mem).wf(),
        final(mem).base == old(mem).base,
        final(mem).words@.len() == old(mem).words@.len(),
        (r.0.statuscode == Fault::Fault_None) <==> (r.1.paddress is Some),
        r.0.statuscode == Fault::Fault_None ==> r.1.fault.is_clear(),
        r.1.vaddress == va,
        !fault_in.is_clear() ==> (r.0 == (FaultRecord {
            secondstage: false,
            s2fs1walk: false,
            ..fault_in
        }) && *final(mem) == *old(mem) && *final(hdbss) == *old(hdbss)
            && *final(cfi) == *old(cfi)),
        accdesc.acctype != AccessType::AccessType_IFETCH ==> *final(cfi) == *old(cfi),
        !(regime == Regime::Regime_EL10 && spec_el2_enabled(*state))
            ==> *final(hdbss) == *old(hdbss),
        (fault_in.is_clear() && !spec_s1_enabled(*state, regime) && spec_s1_dc_active(
            *state,
            regime,
        ) && accdesc.acctype == AccessType::AccessType_IFETCH) ==> (r.0.statuscode
            == Fault::Fault_Translation && r.0.level == 0),
        (fault_in.is_clear() && !spec_s1_enabled(*state, regime) && !(spec_s1_dc_active(
            *state,
            regime,
        ) && accdesc.acctype == AccessType::AccessType_IFETCH) && (va & spec_s1_disabled_region(
            spec_s1_walkparams(*state, va),
            accdesc.acctype,
        )) != 0) ==> (r.0.statuscode == Fault::Fault_AddressSize && r.0.level == 0),
        (fault_in.is_clear() && !spec_s1_enabled(*state, regime) && !(spec_s1_dc_active(
            *state,
            regime,
        ) && accdesc.acctype == AccessType::AccessType_IFETCH) && (va & spec_s1_disabled_region(
            spec_s1_walkparams(*state, va),
            accdesc.acctype,
        )) == 0) ==> (r.0.statuscode == Fault::Fault_None && r.1.paddress == Some(
            (FullAddress {
                paspace: spec_pas_from_ss(accdesc.ss),
                address: va & 0x000F_FFFF_FFFF_FFFFu64,
            }),
        )),
        (fault_in.is_clear() && spec_s1_enabled(*state, regime) && spec_s1_txsz_faults(
            spec_s1_walkparams(*state, va),
        )) ==> (r.0.statuscode == Fault::Fault_Translation && r.0.level == 0),
        (fault_in.is_clear() && spec_s1_enabled(*state, regime) && !spec_s1_txsz_faults(
            spec_s1_walkparams(*state, va),
        ) && spec_va_out_of_range(
            va,
            accdesc.acctype,
            regime,
            spec_s1_clamped_walkparams(spec_s1_walkparams(*state, va)),
        )) ==> (r.0.statuscode == Fault::Fault_Translation && r.0.level == 0),
        (fault_in.is_clear() && spec_s1_enabled(*state, regime) && !spec_s1_txsz_faults(
            spec_s1_walkparams(*state, va),
        ) && !spec_va_out_of_range(
            va,
            accdesc.acctype,
            regime,
            spec_s1_clamped_walkparams(spec_s1_walkparams(*state, va)),
        ) && accdesc.el == PrivilegeLevel::PL0 && spec_s1_walkparams(*state, va).e0pd == 1) ==> (
        r.0.statuscode == Fault::Fault_Translation && r.0.level == 0),
        (fault_in.is_clear() && spec_s1_enabled(*state, regime) && !spec_s1_txsz_faults(
            spec_s1_walkparams(*state, va),
        ) && !spec_va_out_of_range(
            va,
            accdesc.acctype,
            regime,
            spec_s1_clamped_walkparams(spec_s1_walkparams(*state, va)),
        ) && accdesc.el == PrivilegeLevel::PL0 && state.feat_tme && spec_s1_walkparams(
            *state,
            va,
        ).nfd == 1 && accdesc.transactional) ==> (r.0.statuscode == Fault::Fault_Translation
            && r.0.level == 0),
        (fault_in.is_clear() && spec_s1_enabled(*state, regime) && !spec_s1_txsz_faults(
            spec_s1_walkparams(*state, va),
        ) && !spec_va_out_of_range(
            va,
            accdesc.acctype,
            regime,
            spec_s1_clamped_walkparams(spec_s1_walkparams(*state, va)),
        ) && accdesc.el == PrivilegeLevel::PL0 && state.feat_sve && spec_s1_walkparams(
            *state,
            va,
        ).nfd == 1 && ((accdesc.nonfault && accdesc.contiguous) || (accdesc.firstfault
            && !accdesc.first && !accdesc.contiguous))) ==> (r.0.statuscode
            == Fault::Fault_Translation && r.0.level == 0),
        !r.0.is_clear() ==> r.1 == spec_faulty_descriptor(va, r.0),
        ({
            let o = spec_s1_outcome(*state, *old(mem), va);
            let checked = spec_s1_checked_status(*state, *old(mem), regime, va, aligned, accdesc);
            (fault_in.is_clear() && spec_s1_gates_pass(*state, regime, va, accdesc)) ==> ((o.fault
                != Fault::Fault_None ==> r.0 == (FaultRecord {
                statuscode: o.fault,
                level: o.level,
                secondstage: false,
                s2fs1walk: false,
                ..fault_in
            })) && ((o.fault == Fault::Fault_None && checked != Fault::Fault_None) ==> r.0 == (
            FaultRecord {
                statuscode: checked,
                level: o.level,
                secondstage: false,
                s2fs1walk: false,
                ..fault_in
            })) && ((o.fault == Fault::Fault_None && checked == Fault::Fault_None
                && spec_s1_no_update(*state, *old(mem), va, accdesc)) ==> (if spec_ls64_reject(
                spec_s1_success_result(*state, *old(mem), regime, va, accdesc).memattrs,
                accdesc,
            ) {
                r.0 == (FaultRecord {
                    statuscode: Fault::Fault_Exclusive,
                    level: o.level,
                    secondstage: false,
                    s2fs1walk: false,
                    ..fault_in
                })
            } else {
                r.0.statuscode == Fault::Fault_None && r.1 == spec_s1_success_result(
                    *state,
                    *old(mem),
                    regime,
                    va,
                    accdesc,
                )
            })))
        }),
{
    let mut fault = fault_in;
    // Prepare the fault fields in case a fault is detected.
    fault.secondstage = false;
    fault.s2fs1walk = false;
    if !matches!(fault.statuscode, Fault::Fault_None) {
        // A fault already reported short-circuits this stage.
        return (fault, CreateFaultyAddressDescriptor(va, fault));
    }
    if !crate::sysregs::AArch64S1Enabled(state, regime, accdesc.acctype) {
        return AArch64S1DisabledOutput(state, fault, regime, va, accdesc, aligned);
    }
    let walkparams = crate::sysregs::AArch64GetS1TTWParams(state, regime, accdesc.ss, va);
    let s1mintxsz = AArch64S1MinTxSZ(regime, walkparams.d128, walkparams.ds, walkparams.tgx);
    let s1maxtxsz = AArch64MaxTxSZ(walkparams.tgx);
    if AArch64S1TxSZFaults(regime, walkparams) {
        fault.statuscode = Fault::Fault_Translation;
        fault.level = 0;
        return (fault, CreateFaultyAddressDescriptor(va, fault));
    }
    let mut wp = walkparams;
    if wp.txsz < s1mintxsz {
        wp.txsz = s1mintxsz;
    } else if wp.txsz > s1maxtxsz {
        wp.txsz = s1maxtxsz;
    }
    if AArch64VAIsOutOfRange(va, accdesc.acctype, regime, wp) {
        fault.statuscode = Fault::Fault_Translation;
        fault.level = 0;
        return (fault, CreateFaultyAddressDescriptor(va, fault));
    }
    if matches!(accdesc.el, PrivilegeLevel::PL0) && wp.e0pd == 1 {
        fault.statuscode = Fault::Fault_Translation;
        fault.level = 0;
        return (fault, CreateFaultyAddressDescriptor(va, fault));
    }
    if IsFeatureImplemented(state, Feature::FEAT_TME) && matches!(accdesc.el, PrivilegeLevel::PL0)
        && wp.nfd == 1 && accdesc.transactional {
        fault.statuscode = Fault::Fault_Translation;
        fault.level = 0;
        return (fault, CreateFaultyAddressDescriptor(va, fault));
    }
    if IsFeatureImplemented(state, Feature::FEAT_SVE) && matches!(accdesc.el, PrivilegeLevel::PL0)
        && wp.nfd == 1 && ((accdesc.nonfault && accdesc.contiguous) || (accdesc.firstfault
        && !accdesc.first && !accdesc.contiguous)) {
        fault.statuscode = Fault::Fault_Translation;
        fault.level = 0;
        return (fault, CreateFaultyAddressDescriptor(va, fault));
    }
    let mut walkstate: TTWState = crate::walk::empty_walk_state();
    let mut descriptor: u128 = 0;
    let limit: usize = mem.racing.len();
    let mut attempts: usize = 0;
    let ghost mut first_pass: bool = true;
    loop
        invariant_except_break
            fault.statuscode == Fault::Fault_None,
        invariant
            state.wf(),
            mem.wf(),
            mem.base == old(mem).base,
            mem.words@.len() == old(mem).words@.len(),
            wp.wf(),
            crate::walk::spec_s1_min_txsz(wp.d128, wp.tgx) <= wp.txsz <= 39,
            attempts <= limit,
            !fault.secondstage,
            !fault.s2fs1walk,
            fault == (FaultRecord {
                statuscode: fault.statuscode,
                level: fault.level,
                secondstage: false,
                s2fs1walk: false,
                ..fault_in
            }),
            first_pass ==> *mem == *old(mem),
            !first_pass ==> (spec_s1_outcome(*state, *old(mem), va).fault == Fault::Fault_None
                && spec_s1_checked_status(*state, *old(mem), regime, va, aligned, accdesc)
                == Fault::Fault_None && !spec_s1_no_update(*state, *old(mem), va, accdesc)),
            fault_in.is_clear(),
            spec_s1_enabled(*state, regime),
            !spec_s1_txsz_faults(spec_s1_walkparams(*state, va)),
            wp == spec_s1_clamped_walkparams(spec_s1_walkparams(*state, va)),
            !spec_va_out_of_range(
                va,
                accdesc.acctype,
                regime,
                spec_s1_clamped_walkparams(spec_s1_walkparams(*state, va)),
            ),
            !(accdesc.el == PrivilegeLevel::PL0 && spec_s1_walkparams(*state, va).e0pd == 1),
            !(accdesc.el == PrivilegeLevel::PL0 && state.feat_tme && spec_s1_walkparams(
                *state,
                va,
            ).nfd == 1 && accdesc.transactional),
            !(accdesc.el == PrivilegeLevel::PL0 && state.feat_sve && spec_s1_walkparams(
                *state,
                va,
            ).nfd == 1 && ((accdesc.nonfault && accdesc.contiguous) || (accdesc.firstfault
                && !accdesc.first && !accdesc.contiguous))),
            accdesc.acctype != AccessType::AccessType_IFETCH ==> *cfi == *old(cfi),
            !(regime == Regime::Regime_EL10 && spec_el2_enabled(*state)) ==> *hdbss == *old(hdbss),
        ensures
            walkstate.wf(),
            mem.wf(),
            mem.base == old(mem).base,
            mem.words@.len() == old(mem).words@.len(),
            (fault.statuscode == Fault::Fault_None || fault.statuscode == Fault::Fault_Alignment
                || fault.statuscode == Fault::Fault_Permission),
            accdesc.acctype != AccessType::AccessType_IFETCH ==> *cfi == *old(cfi),
            !(regime == Regime::Regime_EL10 && spec_el2_enabled(*state)) ==> *hdbss == *old(hdbss),
            fault == (FaultRecord {
                statuscode: fault.statuscode,
                level: fault.level,
                secondstage: false,
                s2fs1walk: false,
                ..fault_in
            }),
            ({
                let o = spec_s1_outcome(*state, *old(mem), va);
                let checked = spec_s1_checked_status(*state, *old(mem), regime, va, aligned,
                    accdesc);
                (first_pass && o.fault == Fault::Fault_None && spec_s1_updated_low(
                    wp,
                    (o.descriptor as u64),
                    checked == Fault::Fault_None,
                    accdesc,
                ) == (o.descriptor as u64)) ==> (*mem == *old(mem) && walkstate == o.walkstate
                    && descriptor == o.descriptor && fault == (FaultRecord {
                    statuscode: checked,
                    level: o.level,
                    secondstage: false,
                    s2fs1walk: false,
                    ..fault_in
                }))
            }),
            first_pass ==> spec_s1_outcome(*state, *old(mem), va).fault == Fault::Fault_None,
            !first_pass ==> (spec_s1_outcome(*state, *old(mem), va).fault == Fault::Fault_None
                && spec_s1_checked_status(*state, *old(mem), regime, va, aligned, accdesc)
                == Fault::Fault_None && !spec_s1_no_update(*state, *old(mem), va, accdesc)),
        decreases limit - attempts,
    {
        let walked = AArch64S1Walk_128(state, mem, fault, wp, va, regime, accdesc);
        fault = walked.0;
        let descipaddr = walked.1;
        walkstate = walked.2;
        descriptor = walked.3;
        proof {
            reveal(spec_s1_outcome);
        }
        if !matches!(fault.statuscode, Fault::Fault_None) {
            return (fault, CreateFaultyAddressDescriptor(va, fault));
        }
        if matches!(accdesc.acctype, AccessType::AccessType_IFETCH) {
            // Flag whether the fetched instruction came from a guarded page.
            SetInGuardedPage(cfi, walkstate.guardedpage);
        }
        if AArch64S1HasAlignmentFault(accdesc, aligned, wp.ntlsmd, walkstate.memattrs) {
            fault.statuscode = Fault::Fault_Alignment;
        }
        if matches!(fault.statuscode, Fault::Fault_None) {
            fault = AArch64S1CheckPermissions(fault, regime, walkstate, wp, accdesc);
        }
        let old_low: u64 = #[verifier::truncate] (descriptor as u64);
        let mut new_low: u64 = old_low;
        if wp.ha == 1 && AArch64SettingAccessFlagPermitted(fault) {
            // Set the descriptor's access flag.
            new_low = new_low | 0x400;
        }
        // If hardware dirty-state update is enabled, the walk state's
        // permissions already reflect a configuration permitting writes; the
        // descriptor in memory is updated only when it does not reflect that
        // and the access instigates a write.
        if AArch64SettingDirtyStatePermitted(fault) && wp.ha == 1 && wp.hd == 1 && (wp.pie == 1
            || (old_low >> 51) & 1 == 1) && accdesc.write && !(matches!(
            accdesc.acctype,
            AccessType::AccessType_AT,
        ) || matches!(accdesc.acctype, AccessType::AccessType_IC) || matches!(
            accdesc.acctype,
            AccessType::AccessType_DC,
        )) {
            // Clear the not-dirty bit, permitting stage-1 writes.
            new_low = new_low & !0x80u64;
        }
        proof {
            reveal(spec_s1_outcome);
            reveal(spec_s1_checked_status);
            reveal(spec_s1_no_update);
            assert(new_low == spec_s1_updated_low(wp, old_low, fault.is_clear(), accdesc));
            if first_pass {
                let o = spec_s1_outcome(*state, *old(mem), va);
                assert(walkstate == o.walkstate);
                assert(descriptor == o.descriptor);
                assert(spec_s1_checked_status(*state, *old(mem), regime, va, aligned, accdesc)
                    == fault.statuscode);
            }
        }
        if new_low == old_low {
            break ;
        }
        proof {
            reveal(spec_s1_outcome);
            reveal(spec_s1_no_update);
            // The descriptor needs a write-back: the pristine-memory record
            // of the first pass no longer applies.
            if first_pass {
                assert(!spec_s1_no_update(*state, *old(mem), va, accdesc));
            }
            first_pass = false;
        }
        // The access flag was clear or the not-dirty bit was set: write the
        // updated descriptor back with a single-copy-atomic compare-and-swap
        // through the descriptor's physical address.
        let descaccess = crate::shared_memory::CreateAccDescTTEUpdate(state, accdesc);
        let descpaddr: AddressDescriptor;
        if matches!(regime, Regime::Regime_EL10) && EL2Enabled(state) {
            let s2 = AArch64S2Translate(state, mem, hdbss, fault, descipaddr, true, true,
                descaccess);
            let s2fault = s2.0;
            if !matches!(s2fault.statuscode, Fault::Fault_None) {
                return (s2fault, CreateFaultyAddressDescriptor(va, s2fault));
            }
            descpaddr = s2.1;
        } else {
            descpaddr = descipaddr;
        }
        let new_desc: u128 = replace_low_word(descriptor, new_low);
        let swapped = AArch64MemSwapTableDesc(
            mem,
            fault,
            descriptor,
            new_desc,
            wp.ee,
            descpaddr.paddress.unwrap().address,
        );
        fault = swapped.0;
        let mem_desc: u128 = swapped.1;
        if !matches!(fault.statuscode, Fault::Fault_None) {
            return (fault, CreateFaultyAddressDescriptor(va, fault));
        }
        if mem_desc == new_desc {
            break ;
        }
        if attempts >= limit {
            // The scheduled interference is exhausted and the update still
            // did not converge.
            fault.statuscode = Fault::Fault_HWUpdateAccessFlag;
            fault.level = walkstate.level;
            return (fault, CreateFaultyAddressDescriptor(va, fault));
        }
        attempts = attempts + 1;
    }
    if !matches!(fault.statuscode, Fault::Fault_None) {
        proof {
            reveal(spec_s1_no_update);
            let o = spec_s1_outcome(*state, *old(mem), va);
            let checked = spec_s1_checked_status(*state, *old(mem), regime, va, aligned, accdesc);
            if checked != Fault::Fault_None {
                // With a fault standing, neither hardware update applies.
                assert(spec_s1_updated_low(wp, (o.descriptor as u64), false, accdesc) == (
                o.descriptor as u64));
            }
            if first_pass && o.fault == Fault::Fault_None && checked == Fault::Fault_None
                && spec_s1_no_update(*state, *old(mem), va, accdesc) {
                // The first pass then converged without a fault: this exit
                // is unreachable.
                assert(fault == (FaultRecord {
                    statuscode: checked,
                    level: o.level,
                    secondstage: false,
                    s2fs1walk: false,
                    ..fault_in
                }));
            }
        }
        return (fault, CreateFaultyAddressDescriptor(va, fault));
    }
    // Output address and reported attributes.
    let oa = StageOA(va, wp.d128, wp.tgx, walkstate);
    let memattrs = S1OutputMemAttrs(
        crate::sysregs::AArch64S1ICacheEnabled(state, regime),
        crate::sysregs::AArch64S1DCacheEnabled(state, regime),
        accdesc.acctype,
        walkstate.memattrs,
    );
    proof {
        reveal(spec_s1_success_result);
        reveal(spec_s1_outcome);
        reveal(spec_s1_checked_status);
        reveal(spec_s1_no_update);
        let o = spec_s1_outcome(*state, *old(mem), va);
        let checked = spec_s1_checked_status(*state, *old(mem), regime, va, aligned, accdesc);
        if first_pass && o.fault == Fault::Fault_None && checked == Fault::Fault_None
            && spec_s1_no_update(*state, *old(mem), va, accdesc) {
            assert(memattrs == spec_s1_success_result(*state, *old(mem), regime, va, accdesc).memattrs);
        }
    }
    if accdesc.ls64 && matches!(memattrs.memtype, MemType::MemType_Normal) {
        if !matches!(memattrs.inner.attrs, MemAttr::MemAttr_NC) || !matches!(
            memattrs.outer.attrs,
            MemAttr::MemAttr_NC,
        ) {
            fault.statuscode = Fault::Fault_Exclusive;
            proof {
                reveal(spec_s1_no_update);
                let o = spec_s1_outcome(*state, *old(mem), va);
                let checked = spec_s1_checked_status(*state, *old(mem), regime, va, aligned,
                    accdesc);
                if first_pass && o.fault == Fault::Fault_None && checked == Fault::Fault_None
                    && spec_s1_no_update(*state, *old(mem), va, accdesc) {
                    assert(spec_ls64_reject(
                        spec_s1_success_result(*state, *old(mem), regime, va, accdesc).memattrs,
                        accdesc,
                    ));
                    assert(fault == (FaultRecord {
                        statuscode: Fault::Fault_Exclusive,
                        level: o.level,
                        secondstage: false,
                        s2fs1walk: false,
                        ..fault_in
                    }));
                }
            }
            return (fault, CreateFaultyAddressDescriptor(va, fault));
        }
    }
    let mut ipa = CreateAddressDescriptor(va, oa, memattrs);
    ipa.s1assured = walkstate.s1assured;
    let varange = AArch64GetVARange(va);
    ipa.mecid = crate::shared_mec::AArch64S1OutputMECID_128(
        state,
        wp,
        regime,
        varange,
        oa.paspace,
        descriptor,
    );
    proof {
        reveal(spec_s1_success_result);
        reveal(spec_s1_outcome);
        reveal(spec_s1_checked_status);
        reveal(spec_s1_no_update);
        let o = spec_s1_outcome(*state, *old(mem), va);
        let checked = spec_s1_checked_status(*state, *old(mem), regime, va, aligned, accdesc);
        if first_pass && o.fault == Fault::Fault_None && checked == Fault::Fault_None
            && spec_s1_no_update(*state, *old(mem), va, accdesc) {
            assert(ipa == spec_s1_success_result(*state, *old(mem), regime, va, accdesc));
        }
    }
    (fault, ipa)
}

/// Address translation as specified by the VMSA: select the regime for the
/// access's exception level, run stage 1, and — exactly when the regime is
/// EL1&0 and EL2 is enabled — run stage 2 on the stage-1 output. A fault at
/// either stage terminates the translation with a faulty descriptor that
/// carries only the virtual address and the fault; alignment checks not due
/// to memory type are expected before translation.
pub fn AArch64FullTranslate(
    state: &ArchState,
    mem: &mut PhysMem,
    hdbss: &mut Hdbss,
    cfi: &mut CfiState,
    va: u64,
    accdesc: AccessDescriptor,
    aligned: bool,
) -> (r: AddressDescriptor)
    requires
        state.wf(),
        old(mem).wf(),
    ensures
        final(mem).wf(),
        final(mem).base == old(mem).base,
        final(mem).words@.len() == old(mem).words@.len(),
        r.vaddress == va,
        r.output_consistent(),
        accdesc.acctype != AccessType::AccessType_IFETCH ==> *final(cfi) == *old(cfi),
        !(spec_translation_regime(*state, accdesc.el) == Regime::Regime_EL10 && spec_el2_enabled(
            *state,
        )) ==> *final(hdbss) == *old(hdbss),
        ({
            let regime = spec_translation_regime(*state, accdesc.el);
            (!spec_s1_enabled(*state, regime) && spec_s1_dc_active(*state, regime)
                && accdesc.acctype == AccessType::AccessType_IFETCH) ==> (r.fault.statuscode
                == Fault::Fault_Translation && r.fault.level == 0 && (r.paddress is None))
        }),
        ({
            let regime = spec_translation_regime(*state, accdesc.el);
            (!spec_s1_enabled(*state, regime) && !(spec_s1_dc_active(*state, regime)
                && accdesc.acctype == AccessType::AccessType_IFETCH) && (va
                & spec_s1_disabled_region(spec_s1_walkparams(*state, va), accdesc.acctype)) != 0)
                ==> (r.fault.statuscode == Fault::Fault_AddressSize && r.fault.level == 0 && (
            r.paddress is None))
        }),
        ({
            let regime = spec_translation_regime(*state, accdesc.el);
            (!spec_s1_enabled(*state, regime) && !(spec_s1_dc_active(*state, regime)
                && accdesc.acctype == AccessType::AccessType_IFETCH) && (va
                & spec_s1_disabled_region(spec_s1_walkparams(*state, va), accdesc.acctype)) == 0
                && !(regime == Regime::Regime_EL10 && spec_el2_enabled(*state)))
                ==> (r.fault.statuscode == Fault::Fault_None && r.paddress == Some(
                (FullAddress {
                    paspace: spec_pas_from_ss(accdesc.ss),
                    address: va & 0x000F_FFFF_FFFF_FFFFu64,
                }),
            ))
        }),
        ({
            let regime = spec_translation_regime(*state, accdesc.el);
            (spec_s1_enabled(*state, regime) && spec_s1_txsz_faults(spec_s1_walkparams(*state, va)))
                ==> (r.fault.statuscode == Fault::Fault_Translation && r.fault.level == 0 && (
            r.paddress is None))
        }),
        ({
            let regime = spec_translation_regime(*state, accdesc.el);
            (spec_s1_enabled(*state, regime) && !spec_s1_txsz_faults(
                spec_s1_walkparams(*state, va),
            ) && spec_va_out_of_range(
                va,
                accdesc.acctype,
                regime,
                spec_s1_clamped_walkparams(spec_s1_walkparams(*state, va)),
            )) ==> (r.fault.statuscode == Fault::Fault_Translation && r.fault.level == 0 && (
            r.paddress is None))
        }),
        ({
            let regime = spec_translation_regime(*state, accdesc.el);
            (spec_s1_enabled(*state, regime) && !spec_s1_txsz_faults(
                spec_s1_walkparams(*state, va),
            ) && !spec_va_out_of_range(
                va,
                accdesc.acctype,
                regime,
                spec_s1_clamped_walkparams(spec_s1_walkparams(*state, va)),
            ) && accdesc.el == PrivilegeLevel::PL0 && spec_s1_walkparams(*state, va).e0pd == 1)
                ==> (r.fault.statuscode == Fault::Fault_Translation && r.fault.level == 0 && (
            r.paddress is None))
        }),
        !r.fault.is_clear() ==> r == spec_faulty_descriptor(va, r.fault),
        ({
            let regime = spec_translation_regime(*state, accdesc.el);
            let o = spec_s1_outcome(*state, *old(mem), va);
            let checked = spec_s1_checked_status(*state, *old(mem), regime, va, aligned, accdesc);
            let base = crate::shared_memory::spec_no_fault_for_access(accdesc);
            spec_s1_gates_pass(*state, regime, va, accdesc) ==> ((o.fault != Fault::Fault_None
                ==> r == spec_faulty_descriptor(
                va,
                (FaultRecord { statuscode: o.fault, level: o.level, ..base }),
            )) && ((o.fault == Fault::Fault_None && checked != Fault::Fault_None) ==> r
                == spec_faulty_descriptor(
                va,
                (FaultRecord { statuscode: checked, level: o.level, ..base }),
            )) && ((!(regime == Regime::Regime_EL10 && spec_el2_enabled(*state)) && o.fault
                == Fault::Fault_None && checked == Fault::Fault_None && spec_s1_no_update(
                *state,
                *old(mem),
                va,
                accdesc,
            ) && !spec_ls64_reject(
                spec_s1_success_result(*state, *old(mem), regime, va, accdesc).memattrs,
                accdesc,
            )) ==> r == spec_s1_success_result(*state, *old(mem), regime, va, accdesc)))
        }),
{
    let regime: Regime = TranslationRegime(state, accdesc.el);
    let fault = FaultRecord::NoFaultForAccess(accdesc);
    let translated = AArch64S1Translate(state, mem, hdbss, cfi, fault, regime, va, aligned,
        accdesc);
    let s1fault = translated.0;
    let ipa = translated.1;
    if !matches!(s1fault.statuscode, Fault::Fault_None) {
        return CreateFaultyAddressDescriptor(va, s1fault);
    }
    if matches!(regime, Regime::Regime_EL10) && EL2Enabled(state) {
        let s1aarch64 = true;
        let s2 = AArch64S2Translate(state, mem, hdbss, s1fault, ipa, s1aarch64, aligned, accdesc);
        let s2fault = s2.0;
        let pa = s2.1;
        if !matches!(s2fault.statuscode, Fault::Fault_None) {
            return CreateFaultyAddressDescriptor(va, s2fault);
        }
        return pa;
    }
    ipa
}

} // verus!
