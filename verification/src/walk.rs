//! Translation-walk support: input-range and size checks, memory-attribute
//! decoding, permission evaluation, and the stage-1 and stage-2 table walks.
use vstd::prelude::*;

verus! {

use crate::shared_memory::{AccessDescriptor, AccessType, DeviceType, Fault, FaultRecord,
    FullAddress, MemAttr, MemAttrHints, MemHint, MemTagType, MemType, MemoryAttributes, PASpace,
    Permissions, Shareability};
use crate::shared_translation::Regime;
use crate::shared_vmsa::{AddressDescriptor, CreateAddressDescriptor, PrivilegeLevel, S1TTWParams,
    S2TTWParams, SDFType, TGx, TGxGranuleBits, TTWState, TranslationSize, spec_granule_bits,
    spec_has_unprivileged};
use crate::physmem::{FetchDescriptor, PhysMem};
use crate::sysregs::ArchState;

/// The output (physical) address size a 3-bit register field selects, capped
/// at the 52 bits this model carries.
pub open spec fn spec_pa_size(ps: u64) -> int {
    if ps == 0 {
        32
    } else if ps == 1 {
        36
    } else if ps == 2 {
        40
    } else if ps == 3 {
        42
    } else if ps == 4 {
        44
    } else if ps == 5 {
        48
    } else {
        52
    }
}

/// Decode the output-address size field.
pub fn DecodePASize(ps: u64) -> (r: u64)
    ensures
        r == spec_pa_size(ps),
        32 <= r <= 52,
{
    if ps == 0 {
        32
    } else if ps == 1 {
        36
    } else if ps == 2 {
        40
    } else if ps == 3 {
        42
    } else if ps == 4 {
        44
    } else if ps == 5 {
        48
    } else {
        52
    }
}

/// The smallest input-size field this model walks: the input range must not
/// need a start level above level 0, and the field is never below 12.
pub open spec fn spec_s1_min_txsz(d128: u64, tgx: TGx) -> int {
    let cap = spec_granule_bits(tgx) + 4 * (spec_granule_bits(tgx) - crate::shared_vmsa::spec_desc_size_log2(d128));
    if 64 - cap > 12 {
        64 - cap
    } else {
        12
    }
}

/// Return the minimum value the input-size field may hold for stage 1.
pub fn AArch64S1MinTxSZ(_regime: Regime, d128: u64, _ds: u64, tgx: TGx) -> (r: u64)
    ensures
        r == spec_s1_min_txsz(d128, tgx),
        12 <= r <= 20,
{
    let granulebits: u64 = TGxGranuleBits(tgx);
    let descsizelog2: u64 = if d128 == 1 {
        4
    } else {
        3
    };
    let cap: u64 = granulebits + 4 * (granulebits - descsizelog2);
    if cap < 52 {
        64 - cap
    } else {
        12
    }
}

/// Return the maximum value the input-size field may hold.
pub fn AArch64MaxTxSZ(_tgx: TGx) -> (r: u64)
    ensures
        r == 39,
{
    39
}

/// Return the minimum value the input-size field may hold for stage 2: the
/// same level-0 bound as stage 1 in this model.
pub fn AArch64S2MinTxSZ(d128: u64, _ds: u64, tgx: TGx, _s1aarch64: bool) -> (r: u64)
    ensures
        r == spec_s1_min_txsz(d128, tgx),
        12 <= r <= 20,
{
    AArch64S1MinTxSZ(Regime::Regime_EL10, d128, _ds, tgx)
}

/// Whether a stage-1 configuration faults on its raw input-size field: the
/// implementation is flagged to fault and the field lies outside the
/// architected bounds.
pub open spec fn spec_s1_txsz_faults(walkparams: S1TTWParams) -> bool {
    walkparams.txszfault && (walkparams.txsz < spec_s1_min_txsz(walkparams.d128, walkparams.tgx)
        || walkparams.txsz > 39)
}

/// Whether the stage-1 input-size field faults instead of being clamped.
pub fn AArch64S1TxSZFaults(regime: Regime, walkparams: S1TTWParams) -> (r: bool)
    ensures
        r == spec_s1_txsz_faults(walkparams),
{
    let mintxsz = AArch64S1MinTxSZ(regime, walkparams.d128, walkparams.ds, walkparams.tgx);
    let maxtxsz = AArch64MaxTxSZ(walkparams.tgx);
    walkparams.txszfault && (walkparams.txsz < mintxsz || walkparams.txsz > maxtxsz)
}

/// Whether a stage-2 configuration faults on its raw input-size field.
pub open spec fn spec_s2_txsz_faults(walkparams: S2TTWParams) -> bool {
    walkparams.txszfault && (walkparams.txsz < spec_s1_min_txsz(walkparams.d128, walkparams.tgx)
        || walkparams.txsz > 39)
}

/// Whether the stage-2 input-size field faults instead of being clamped.
pub fn AArch64S2TxSZFaults(walkparams: S2TTWParams, s1aarch64: bool) -> (r: bool)
    ensures
        r == spec_s2_txsz_faults(walkparams),
{
    let mintxsz = AArch64S2MinTxSZ(walkparams.d128, walkparams.ds, walkparams.tgx, s1aarch64);
    let maxtxsz = AArch64MaxTxSZ(walkparams.tgx);
    walkparams.txszfault && (walkparams.txsz < mintxsz || walkparams.txsz > maxtxsz)
}

/// An input-size field clamped into the architected bounds, used for every
/// range check and for the walk once the fault check has passed.
pub open spec fn spec_clamped_txsz(txsz: u64, mintxsz: int, maxtxsz: int) -> u64 {
    if txsz < mintxsz {
        mintxsz as u64
    } else if txsz > maxtxsz {
        maxtxsz as u64
    } else {
        txsz
    }
}

/// The stage-1 walk parameters with their input-size field clamped.
pub open spec fn spec_s1_clamped_walkparams(walkparams: S1TTWParams) -> S1TTWParams {
    S1TTWParams {
        txsz: spec_clamped_txsz(
            walkparams.txsz,
            spec_s1_min_txsz(walkparams.d128, walkparams.tgx),
            39,
        ),
        ..walkparams
    }
}

/// The stage-2 walk parameters with their input-size field clamped.
pub open spec fn spec_s2_clamped_walkparams(walkparams: S2TTWParams) -> S2TTWParams {
    S2TTWParams {
        txsz: spec_clamped_txsz(
            walkparams.txsz,
            spec_s1_min_txsz(walkparams.d128, walkparams.tgx),
            39,
        ),
        ..walkparams
    }
}

/// The highest virtual-address bit checked against the input range: byte 7
/// is ignored when top-byte-ignore applies to this access.
pub open spec fn spec_addr_top(walkparams: S1TTWParams, acctype: AccessType) -> int {
    if walkparams.tbi == 1 && !(walkparams.tbid == 1 && acctype == AccessType::AccessType_IFETCH) {
        55
    } else {
        63
    }
}

/// The virtual-address bits that the range check examines: those from the
/// input-range size up to the checked top bit.
pub open spec fn spec_va_check_region(walkparams: S1TTWParams, acctype: AccessType) -> u64 {
    let upper = if spec_addr_top(walkparams, acctype) == 63 {
        0xFFFF_FFFF_FFFF_FFFFu64
    } else {
        0x00FF_FFFF_FFFF_FFFFu64
    };
    (upper & !((((1u64 << ((64 - walkparams.txsz) as u64)) - 1) as u64)))
}

/// Whether the virtual address lies outside the configured input range: the
/// checked bits must be all-zero in the lower range and for single-level
/// regimes, and all-one in the upper range.
pub open spec fn spec_va_out_of_range(
    va: u64,
    acctype: AccessType,
    regime: Regime,
    walkparams: S1TTWParams,
) -> bool {
    let region = spec_va_check_region(walkparams, acctype);
    if !spec_has_unprivileged(regime) {
        (va & region) != 0
    } else if va & 0x0080_0000_0000_0000u64 != 0 {
        (va & region) != region
    } else {
        (va & region) != 0
    }
}

/// Check whether the virtual address is within the configured input range.
pub fn AArch64VAIsOutOfRange(
    va: u64,
    acctype: AccessType,
    regime: Regime,
    walkparams: S1TTWParams,
) -> (r: bool)
    requires
        1 <= walkparams.txsz < 64,
    ensures
        r == spec_va_out_of_range(va, acctype, regime, walkparams),
{
    let addrtop: u64 = if walkparams.tbi == 1 && !(walkparams.tbid == 1 && acctype
        == AccessType::AccessType_IFETCH) {
        55
    } else {
        63
    };
    let upper: u64 = if addrtop == 63 {
        0xFFFF_FFFF_FFFF_FFFFu64
    } else {
        0x00FF_FFFF_FFFF_FFFFu64
    };
    let iasize: u64 = 64 - walkparams.txsz;
    proof {
        crate::bitops::lemma_shl1_pos(iasize);
    }
    let region: u64 = upper & !((1u64 << iasize) - 1);
    if !crate::shared_vmsa::HasUnprivileged(regime) {
        (va & region) != 0
    } else if va & 0x0080_0000_0000_0000u64 != 0 {
        (va & region) != region
    } else {
        (va & region) != 0
    }
}

/// Whether the intermediate-physical address lies outside the configured
/// stage-2 input range: its bits above the input-range size must be zero.
pub open spec fn spec_ipa_out_of_range(ipa: u64, walkparams: S2TTWParams) -> bool {
    (ipa & !((((1u64 << ((64 - walkparams.txsz) as u64)) - 1) as u64))) != 0
}

/// Check whether the intermediate-physical address is within the configured
/// stage-2 input range.
pub fn AArch64IPAIsOutOfRange(ipa: u64, walkparams: S2TTWParams) -> (r: bool)
    requires
        1 <= walkparams.txsz < 64,
    ensures
        r == spec_ipa_out_of_range(ipa, walkparams),
{
    let iasize: u64 = 64 - walkparams.txsz;
    proof {
        crate::bitops::lemma_shl1_pos(iasize);
    }
    (ipa & !((1u64 << iasize) - 1)) != 0
}

/// Whether a stage-1 access takes an alignment fault: unaligned accesses to
/// Device memory, load/store-multiple to other-than-GRE Device memory when
/// so configured, and DC ZVA-style zeroing of Device memory.
pub open spec fn spec_s1_alignment_fault(
    accdesc: AccessDescriptor,
    aligned: bool,
    ntlsmd: u64,
    memattrs: MemoryAttributes,
) -> bool {
    if accdesc.acctype == AccessType::AccessType_IFETCH {
        false
    } else if accdesc.a32lsmd && ntlsmd == 0 {
        memattrs.memtype == MemType::MemType_Device && memattrs.device != DeviceType::DeviceType_GRE
    } else if accdesc.acctype == AccessType::AccessType_DCZero {
        memattrs.memtype == MemType::MemType_Device
    } else {
        memattrs.memtype == MemType::MemType_Device && !aligned
    }
}

/// Check for an alignment fault against the stage-1 walk's memory type.
pub fn AArch64S1HasAlignmentFault(
    accdesc: AccessDescriptor,
    aligned: bool,
    ntlsmd: u64,
    memattrs: MemoryAttributes,
) -> (r: bool)
    ensures
        r == spec_s1_alignment_fault(accdesc, aligned, ntlsmd, memattrs),
{
    if accdesc.acctype == AccessType::AccessType_IFETCH {
        false
    } else if accdesc.a32lsmd && ntlsmd == 0 {
        memattrs.memtype == MemType::MemType_Device && memattrs.device != DeviceType::DeviceType_GRE
    } else if accdesc.acctype == AccessType::AccessType_DCZero {
        memattrs.memtype == MemType::MemType_Device
    } else {
        memattrs.memtype == MemType::MemType_Device && !aligned
    }
}

/// Whether a stage-2 access takes an alignment fault.
pub open spec fn spec_s2_alignment_fault(
    accdesc: AccessDescriptor,
    aligned: bool,
    memattrs: MemoryAttributes,
) -> bool {
    if accdesc.acctype == AccessType::AccessType_IFETCH {
        false
    } else if accdesc.acctype == AccessType::AccessType_DCZero {
        memattrs.memtype == MemType::MemType_Device
    } else {
        memattrs.memtype == MemType::MemType_Device && !aligned
    }
}

/// Check for an alignment fault against the stage-2 walk's memory type.
pub fn AArch64S2HasAlignmentFault(
    accdesc: AccessDescriptor,
    aligned: bool,
    memattrs: MemoryAttributes,
) -> (r: bool)
    ensures
        r == spec_s2_alignment_fault(accdesc, aligned, memattrs),
{
    if accdesc.acctype == AccessType::AccessType_IFETCH {
        false
    } else if accdesc.acctype == AccessType::AccessType_DCZero {
        memattrs.memtype == MemType::MemType_Device
    } else {
        memattrs.memtype == MemType::MemType_Device && !aligned
    }
}

/// A hardware access-flag update may be performed only while the access has
/// taken no fault.
pub fn AArch64SettingAccessFlagPermitted(fault: FaultRecord) -> (r: bool)
    ensures
        r == fault.is_clear(),
{
    matches!(fault.statuscode, Fault::Fault_None)
}

/// A hardware dirty-state update may be performed only while the access has
/// taken no fault.
pub fn AArch64SettingDirtyStatePermitted(fault: FaultRecord) -> (r: bool)
    ensures
        r == fault.is_clear(),
{
    matches!(fault.statuscode, Fault::Fault_None)
}

/// Decode a two-bit allocation-hint field.
pub open spec fn spec_decode_hint(h: u64) -> MemHint {
    if h == 0 {
        MemHint::MemHint_No
    } else if h == 1 {
        MemHint::MemHint_WA
    } else if h == 2 {
        MemHint::MemHint_RA
    } else {
        MemHint::MemHint_RWA
    }
}

/// Decode one attribute nibble of the memory-attribute indirection register:
/// 0b0100 is Non-cacheable; 0b10RW and 0b11RW are Write-through and
/// Write-back with allocation hints RW; 0b00RW and 0b01RW (RW not 00) are
/// their transient forms; the reserved 0 decodes as Non-cacheable.
pub open spec fn spec_decode_nibble(n: u64) -> MemAttrHints {
    if n == 4 {
        MemAttrHints { attrs: MemAttr::MemAttr_NC, hints: MemHint::MemHint_No, transient: false }
    } else if n >= 12 {
        MemAttrHints { attrs: MemAttr::MemAttr_WB, hints: spec_decode_hint(n % 4), transient: false }
    } else if n >= 8 {
        MemAttrHints { attrs: MemAttr::MemAttr_WT, hints: spec_decode_hint(n % 4), transient: false }
    } else if n >= 5 {
        MemAttrHints { attrs: MemAttr::MemAttr_WB, hints: spec_decode_hint(n % 4), transient: true }
    } else if n >= 1 {
        MemAttrHints { attrs: MemAttr::MemAttr_WT, hints: spec_decode_hint(n % 4), transient: true }
    } else {
        MemAttrHints { attrs: MemAttr::MemAttr_NC, hints: MemHint::MemHint_No, transient: false }
    }
}

/// Decode a two-bit shareability field.
pub open spec fn spec_decode_sh(sh: u64) -> Shareability {
    if sh == 2 {
        Shareability::Shareability_OSH
    } else if sh == 3 {
        Shareability::Shareability_ISH
    } else {
        Shareability::Shareability_NSH
    }
}

/// The non-cacheable hints value.
pub open spec fn spec_nc_hints() -> MemAttrHints {
    MemAttrHints { attrs: MemAttr::MemAttr_NC, hints: MemHint::MemHint_No, transient: false }
}

/// Decode one stage-1 attribute byte together with the descriptor's
/// shareability field: a zero upper nibble selects a Device type; the
/// tagged-Normal encoding selects Write-back tagged memory; anything else is
/// Normal memory with the two nibbles as outer and inner cacheability. The
/// XS attribute is clear only for Normal memory Write-back at both levels.
pub open spec fn spec_s1_attr_from_byte(attr: u64, sh: u64) -> MemoryAttributes {
    if attr & 0xF0 == 0 {
        MemoryAttributes {
            memtype: MemType::MemType_Device,
            device: spec_decode_device((attr / 4) % 4),
            inner: spec_nc_hints(),
            outer: spec_nc_hints(),
            shareability: Shareability::Shareability_OSH,
            tags: MemTagType::MemTag_Untagged,
            notagaccess: false,
            xs: true,
        }
    } else if attr == 0xF0 {
        MemoryAttributes {
            memtype: MemType::MemType_Normal,
            device: DeviceType::DeviceType_GRE,
            inner: MemAttrHints {
                attrs: MemAttr::MemAttr_WB,
                hints: MemHint::MemHint_RWA,
                transient: false,
            },
            outer: MemAttrHints {
                attrs: MemAttr::MemAttr_WB,
                hints: MemHint::MemHint_RWA,
                transient: false,
            },
            shareability: spec_decode_sh(sh),
            tags: MemTagType::MemTag_AllocationTagged,
            notagaccess: false,
            xs: false,
        }
    } else {
        let inner = spec_decode_nibble(attr % 16);
        let outer = spec_decode_nibble((attr / 16) % 16);
        MemoryAttributes {
            memtype: MemType::MemType_Normal,
            device: DeviceType::DeviceType_GRE,
            inner: inner,
            outer: outer,
            shareability: spec_decode_sh(sh),
            tags: MemTagType::MemTag_Untagged,
            notagaccess: false,
            xs: !(inner.attrs == MemAttr::MemAttr_WB && outer.attrs == MemAttr::MemAttr_WB),
        }
    }
}

/// Decode a two-bit Device type field.
pub open spec fn spec_decode_device(d: u64) -> DeviceType {
    if d == 0 {
        DeviceType::DeviceType_nGnRnE
    } else if d == 1 {
        DeviceType::DeviceType_nGnRE
    } else if d == 2 {
        DeviceType::DeviceType_nGRE
    } else {
        DeviceType::DeviceType_GRE
    }
}

/// Decode the allocation-hint field.
fn decode_hint(h: u64) -> (r: MemHint)
    ensures
        r == spec_decode_hint(h),
{
    if h == 0 {
        MemHint::MemHint_No
    } else if h == 1 {
        MemHint::MemHint_WA
    } else if h == 2 {
        MemHint::MemHint_RA
    } else {
        MemHint::MemHint_RWA
    }
}

/// Decode one cacheability nibble.
fn decode_nibble(n: u64) -> (r: MemAttrHints)
    ensures
        r == spec_decode_nibble(n),
{
    if n == 4 {
        MemAttrHints { attrs: MemAttr::MemAttr_NC, hints: MemHint::MemHint_No, transient: false }
    } else if n >= 12 {
        MemAttrHints { attrs: MemAttr::MemAttr_WB, hints: decode_hint(n % 4), transient: false }
    } else if n >= 8 {
        MemAttrHints { attrs: MemAttr::MemAttr_WT, hints: decode_hint(n % 4), transient: false }
    } else if n >= 5 {
        MemAttrHints { attrs: MemAttr::MemAttr_WB, hints: decode_hint(n % 4), transient: true }
    } else if n >= 1 {
        MemAttrHints { attrs: MemAttr::MemAttr_WT, hints: decode_hint(n % 4), transient: true }
    } else {
        MemAttrHints { attrs: MemAttr::MemAttr_NC, hints: MemHint::MemHint_No, transient: false }
    }
}

/// Decode the shareability field.
fn decode_sh(sh: u64) -> (r: Shareability)
    ensures
        r == spec_decode_sh(sh),
{
    if sh == 2 {
        Shareability::Shareability_OSH
    } else if sh == 3 {
        Shareability::Shareability_ISH
    } else {
        Shareability::Shareability_NSH
    }
}

/// Decode the Device-type field.
fn decode_device(d: u64) -> (r: DeviceType)
    ensures
        r == spec_decode_device(d),
{
    if d == 0 {
        DeviceType::DeviceType_nGnRnE
    } else if d == 1 {
        DeviceType::DeviceType_nGnRE
    } else if d == 2 {
        DeviceType::DeviceType_nGRE
    } else {
        DeviceType::DeviceType_GRE
    }
}

/// Decode the stage-1 memory attributes of a leaf: the attribute-index field
/// selects a byte of the memory-attribute indirection register, decoded
/// together with the descriptor's shareability field.
pub fn S1DecodeMemAttrs(attrindx: u64, mair: u64, sh: u64) -> (r: MemoryAttributes)
    requires
        attrindx <= 7,
    ensures
        r == spec_s1_attr_from_byte((mair >> (8 * attrindx)) & 0xFF, sh),
{
    let attr: u64 = (mair >> (8 * attrindx)) & 0xFF;
    proof {
        crate::bitops::lemma_and_le(mair >> (8 * attrindx), 0xFF);
    }
    if attr & 0xF0 == 0 {
        MemoryAttributes {
            memtype: MemType::MemType_Device,
            device: decode_device((attr / 4) % 4),
            inner: MemAttrHints {
                attrs: MemAttr::MemAttr_NC,
                hints: MemHint::MemHint_No,
                transient: false,
            },
            outer: MemAttrHints {
                attrs: MemAttr::MemAttr_NC,
                hints: MemHint::MemHint_No,
                transient: false,
            },
            shareability: Shareability::Shareability_OSH,
            tags: MemTagType::MemTag_Untagged,
            notagaccess: false,
            xs: true,
        }
    } else if attr == 0xF0 {
        MemoryAttributes {
            memtype: MemType::MemType_Normal,
            device: DeviceType::DeviceType_GRE,
            inner: MemAttrHints {
                attrs: MemAttr::MemAttr_WB,
                hints: MemHint::MemHint_RWA,
                transient: false,
            },
            outer: MemAttrHints {
                attrs: MemAttr::MemAttr_WB,
                hints: MemHint::MemHint_RWA,
                transient: false,
            },
            shareability: decode_sh(sh),
            tags: MemTagType::MemTag_AllocationTagged,
            notagaccess: false,
            xs: false,
        }
    } else {
        let inner = decode_nibble(attr % 16);
        let outer = decode_nibble((attr / 16) % 16);
        MemoryAttributes {
            memtype: MemType::MemType_Normal,
            device: DeviceType::DeviceType_GRE,
            inner: inner,
            outer: outer,
            shareability: decode_sh(sh),
            tags: MemTagType::MemTag_Untagged,
            notagaccess: false,
            xs: !(matches!(inner.attrs, MemAttr::MemAttr_WB) && matches!(
                outer.attrs,
                MemAttr::MemAttr_WB,
            )),
        }
    }
}

/// Decode one stage-2 cacheability pair: 1 is Non-cacheable, 2 Write-through,
/// 3 Write-back; the reserved 0 decodes as Non-cacheable.
pub open spec fn spec_s2_decode_pair(n: u64) -> MemAttrHints {
    if n == 2 {
        MemAttrHints { attrs: MemAttr::MemAttr_WT, hints: MemHint::MemHint_RA, transient: false }
    } else if n == 3 {
        MemAttrHints { attrs: MemAttr::MemAttr_WB, hints: MemHint::MemHint_RWA, transient: false }
    } else {
        spec_nc_hints()
    }
}

/// Decode the stage-2 memory attributes of a leaf from the descriptor's
/// four attribute bits and two shareability bits: a zero upper pair selects
/// a Device type from the lower pair; otherwise the pairs are outer and
/// inner cacheability.
pub open spec fn spec_s2_attr_from_bits(attr: u64, sh: u64) -> MemoryAttributes {
    let hi = (attr / 4) % 4;
    let lo = attr % 4;
    if hi == 0 {
        MemoryAttributes {
            memtype: MemType::MemType_Device,
            device: spec_decode_device(lo),
            inner: spec_nc_hints(),
            outer: spec_nc_hints(),
            shareability: Shareability::Shareability_OSH,
            tags: MemTagType::MemTag_Untagged,
            notagaccess: false,
            xs: true,
        }
    } else {
        let inner = spec_s2_decode_pair(lo);
        let outer = spec_s2_decode_pair(hi);
        MemoryAttributes {
            memtype: MemType::MemType_Normal,
            device: DeviceType::DeviceType_GRE,
            inner: inner,
            outer: outer,
            shareability: spec_decode_sh(sh),
            tags: MemTagType::MemTag_Untagged,
            notagaccess: false,
            xs: !(inner.attrs == MemAttr::MemAttr_WB && outer.attrs == MemAttr::MemAttr_WB),
        }
    }
}

/// Decode the stage-2 memory attributes of a leaf.
pub fn S2DecodeMemAttrs(attr: u64, sh: u64) -> (r: MemoryAttributes)
    ensures
        r == spec_s2_attr_from_bits(attr, sh),
{
    let hi: u64 = (attr / 4) % 4;
    let lo: u64 = attr % 4;
    if hi == 0 {
        MemoryAttributes {
            memtype: MemType::MemType_Device,
            device: decode_device(lo),
            inner: MemAttrHints {
                attrs: MemAttr::MemAttr_NC,
                hints: MemHint::MemHint_No,
                transient: false,
            },
            outer: MemAttrHints {
                attrs: MemAttr::MemAttr_NC,
                hints: MemHint::MemHint_No,
                transient: false,
            },
            shareability: Shareability::Shareability_OSH,
            tags: MemTagType::MemTag_Untagged,
            notagaccess: false,
            xs: true,
        }
    } else {
        let inner = if lo == 2 {
            MemAttrHints { attrs: MemAttr::MemAttr_WT, hints: MemHint::MemHint_RA, transient: false }
        } else if lo == 3 {
            MemAttrHints {
                attrs: MemAttr::MemAttr_WB,
                hints: MemHint::MemHint_RWA,
                transient: false,
            }
        } else {
            MemAttrHints { attrs: MemAttr::MemAttr_NC, hints: MemHint::MemHint_No, transient: false }
        };
        let outer = if hi == 2 {
            MemAttrHints { attrs: MemAttr::MemAttr_WT, hints: MemHint::MemHint_RA, transient: false }
        } else if hi == 3 {
            MemAttrHints {
                attrs: MemAttr::MemAttr_WB,
                hints: MemHint::MemHint_RWA,
                transient: false,
            }
        } else {
            MemAttrHints { attrs: MemAttr::MemAttr_NC, hints: MemHint::MemHint_No, transient: false }
        };
        MemoryAttributes {
            memtype: MemType::MemType_Normal,
            device: DeviceType::DeviceType_GRE,
            inner: inner,
            outer: outer,
            shareability: decode_sh(sh),
            tags: MemTagType::MemTag_Untagged,
            notagaccess: false,
            xs: !(matches!(inner.attrs, MemAttr::MemAttr_WB) && matches!(
                outer.attrs,
                MemAttr::MemAttr_WB,
            )),
        }
    }
}

/// Whether a stage-1 mapping admits the access. The walk's raw permission
/// bits are interpreted directly: AP[1] opens the mapping to EL0 unless the
/// hierarchical bits close it; AP[2] or the hierarchical write-never bit
/// makes it read-only; the execute-never bits, the rule that memory writable
/// at EL0 is privileged-execute-never, the write-implies-execute-never
/// control, and privileged-access-never each withdraw the matching right.
/// Privileged reads of a mapping are always permitted outside those rules.
pub open spec fn spec_s1_permit(
    regime: Regime,
    walkstate: TTWState,
    walkparams: S1TTWParams,
    accdesc: AccessDescriptor,
) -> bool {
    let p = walkstate.permissions;
    let unpriv_accessible = (p.ap & 2) != 0 && (p.ap_table & 1) == 0;
    let readonly = (p.ap & 4) != 0 || (p.ap_table & 2) != 0;
    if spec_has_unprivileged(regime) {
        let ur = unpriv_accessible;
        let uw = unpriv_accessible && !readonly;
        let pw = !readonly;
        let ux0 = unpriv_accessible && p.uxn == 0 && p.uxn_table == 0;
        let px0 = p.pxn == 0 && p.pxn_table == 0 && !uw;
        let ux = if walkparams.wxn == 1 {
            ux0 && !uw
        } else {
            ux0
        };
        let px = if walkparams.wxn == 1 {
            px0 && !pw
        } else {
            px0
        };
        if accdesc.el == PrivilegeLevel::PL0 {
            if accdesc.acctype == AccessType::AccessType_IFETCH {
                ux
            } else {
                (!accdesc.read || ur) && (!accdesc.write || uw)
            }
        } else {
            if accdesc.acctype == AccessType::AccessType_IFETCH {
                px
            } else {
                let pan_blocks = accdesc.pan && (unpriv_accessible || (walkparams.epan == 1 && ux));
                !pan_blocks && (!accdesc.write || pw)
            }
        }
    } else {
        let w = !readonly;
        let x0 = p.xn == 0 && p.xn_table == 0;
        let x = if walkparams.wxn == 1 {
            x0 && !w
        } else {
            x0
        };
        if accdesc.acctype == AccessType::AccessType_IFETCH {
            x
        } else {
            (!accdesc.write || w)
        }
    }
}

/// The record the stage-1 permission check returns: unchanged when the
/// access is permitted, a Permission fault at the walk's level otherwise.
pub open spec fn spec_s1_check_permissions(
    fault: FaultRecord,
    regime: Regime,
    walkstate: TTWState,
    walkparams: S1TTWParams,
    accdesc: AccessDescriptor,
) -> FaultRecord {
    if spec_s1_permit(regime, walkstate, walkparams, accdesc) {
        fault
    } else {
        FaultRecord { statuscode: Fault::Fault_Permission, level: walkstate.level, ..fault }
    }
}

/// Evaluate the stage-1 permissions of the walk result against the access.
pub fn AArch64S1CheckPermissions(
    fault: FaultRecord,
    regime: Regime,
    walkstate: TTWState,
    walkparams: S1TTWParams,
    accdesc: AccessDescriptor,
) -> (r: FaultRecord)
    ensures
        r == spec_s1_check_permissions(fault, regime, walkstate, walkparams, accdesc),
{
    let p = walkstate.permissions;
    let unpriv_accessible: bool = (p.ap & 2) != 0 && (p.ap_table & 1) == 0;
    let readonly: bool = (p.ap & 4) != 0 || (p.ap_table & 2) != 0;
    let permitted: bool = if crate::shared_vmsa::HasUnprivileged(regime) {
        let ur = unpriv_accessible;
        let uw = unpriv_accessible && !readonly;
        let pw = !readonly;
        let ux0 = unpriv_accessible && p.uxn == 0 && p.uxn_table == 0;
        let px0 = p.pxn == 0 && p.pxn_table == 0 && !uw;
        let ux = if walkparams.wxn == 1 {
            ux0 && !uw
        } else {
            ux0
        };
        let px = if walkparams.wxn == 1 {
            px0 && !pw
        } else {
            px0
        };
        if matches!(accdesc.el, PrivilegeLevel::PL0) {
            if matches!(accdesc.acctype, AccessType::AccessType_IFETCH) {
                ux
            } else {
                (!accdesc.read || ur) && (!accdesc.write || uw)
            }
        } else {
            if matches!(accdesc.acctype, AccessType::AccessType_IFETCH) {
                px
            } else {
                let pan_blocks = accdesc.pan && (unpriv_accessible || (walkparams.epan == 1 && ux));
                !pan_blocks && (!accdesc.write || pw)
            }
        }
    } else {
        let w = !readonly;
        let x0 = p.xn == 0 && p.xn_table == 0;
        let x = if walkparams.wxn == 1 {
            x0 && !w
        } else {
            x0
        };
        if matches!(accdesc.acctype, AccessType::AccessType_IFETCH) {
            x
        } else {
            (!accdesc.write || w)
        }
    };
    if permitted {
        fault
    } else {
        let mut f = fault;
        f.statuscode = Fault::Fault_Permission;
        f.level = walkstate.level;
        f
    }
}

/// The all-clear permission bits.
pub open spec fn spec_zero_permissions() -> Permissions {
    Permissions {
        ap_table: 0,
        xn_table: 0,
        pxn_table: 0,
        uxn_table: 0,
        ap: 0,
        xn: 0,
        uxn: 0,
        pxn: 0,
        s2ap: 0,
        s2xnx: 0,
        s2xn: 0,
    }
}

/// The cleared walk state fault paths return, for use in contracts.
pub open spec fn spec_empty_walk_state() -> TTWState {
    TTWState {
        istable: false,
        level: 0,
        baseaddress: FullAddress { paspace: PASpace::PAS_NonSecure, address: 0 },
        contiguous: false,
        s1assured: false,
        s2assuredonly: false,
        disch: false,
        nG: false,
        guardedpage: false,
        sdftype: SDFType::SDFType_Invalid,
        domain: 0,
        memattrs: crate::shared_memory::spec_normal_nc_memattrs(),
        permissions: spec_zero_permissions(),
    }
}

/// A cleared walk state, returned alongside a fault.
pub(crate) fn empty_walk_state() -> (r: TTWState)
    ensures
        r == spec_empty_walk_state(),
        r.wf(),
        r.level == 0,
{
    TTWState {
        istable: false,
        level: 0,
        baseaddress: FullAddress { paspace: PASpace::PAS_NonSecure, address: 0 },
        contiguous: false,
        s1assured: false,
        s2assuredonly: false,
        disch: false,
        nG: false,
        guardedpage: false,
        sdftype: SDFType::SDFType_Invalid,
        domain: 0,
        memattrs: crate::shared_memory::NormalNCMemAttr(),
        permissions: Permissions {
            ap_table: 0,
            xn_table: 0,
            pxn_table: 0,
            uxn_table: 0,
            ap: 0,
            xn: 0,
            uxn: 0,
            pxn: 0,
            s2ap: 0,
            s2xnx: 0,
            s2xn: 0,
        },
    }
}

/// The physical-address space a stage-1 leaf maps to: the non-secure bit
/// takes a Secure or Realm table's output to the Non-secure space; other
/// spaces keep the table's space.
pub open spec fn spec_leaf_paspace(base: PASpace, ns: bool) -> PASpace {
    match base {
        PASpace::PAS_Secure => if ns {
            PASpace::PAS_NonSecure
        } else {
            PASpace::PAS_Secure
        },
        PASpace::PAS_Realm => if ns {
            PASpace::PAS_NonSecure
        } else {
            PASpace::PAS_Realm
        },
        PASpace::PAS_Root => PASpace::PAS_Root,
        PASpace::PAS_NonSecure => PASpace::PAS_NonSecure,
    }
}

/// Decode the output space of a stage-1 leaf.
fn leaf_paspace(base: PASpace, ns: bool) -> (r: PASpace)
    ensures
        r == spec_leaf_paspace(base, ns),
{
    match base {
        PASpace::PAS_Secure => if ns {
            PASpace::PAS_NonSecure
        } else {
            PASpace::PAS_Secure
        },
        PASpace::PAS_Realm => if ns {
            PASpace::PAS_NonSecure
        } else {
            PASpace::PAS_Realm
        },
        PASpace::PAS_Root => PASpace::PAS_Root,
        PASpace::PAS_NonSecure => PASpace::PAS_NonSecure,
    }
}

/// The start level a walk descends from `sl`: descend while one more level
/// of lookup still leaves input bits uncovered.
pub open spec fn spec_start_level_from(d128: u64, tgx: TGx, iasize: u64, sl: u64) -> u64
    decreases sl,
{
    if sl > 0 && iasize > crate::shared_vmsa::spec_translation_size(d128, tgx, sl)
        + crate::shared_vmsa::spec_stride(d128, tgx) {
        spec_start_level_from(d128, tgx, iasize, (sl - 1) as u64)
    } else {
        sl
    }
}

/// The level a walk of the given input-range size starts at.
pub open spec fn spec_start_level(d128: u64, tgx: TGx, iasize: u64) -> u64 {
    spec_start_level_from(d128, tgx, iasize, 3)
}

/// The level a walk starts at: the shallowest level whose index field still
/// lies inside the input range.
fn walk_start_level(d128: u64, tgx: TGx, iasize: u64) -> (r: u64)
    requires
        spec_granule_bits(tgx) < iasize,
        iasize <= spec_granule_bits(tgx) + 4 * crate::shared_vmsa::spec_stride(d128, tgx),
    ensures
        r == spec_start_level(d128, tgx, iasize),
        r <= 3,
        crate::shared_vmsa::spec_translation_size(d128, tgx, r) < iasize,
        iasize <= crate::shared_vmsa::spec_translation_size(d128, tgx, r)
            + crate::shared_vmsa::spec_stride(d128, tgx),
{
    let granulebits: u64 = TGxGranuleBits(tgx);
    let stride: u64 = granulebits - (if d128 == 1 {
        4
    } else {
        3
    });
    let mut sl: u64 = 3;
    let mut lsbb: u64 = granulebits;
    proof {
        assert((3 - 3) * crate::shared_vmsa::spec_stride(d128, tgx) == 0) by (nonlinear_arith);
    }
    while sl > 0 && iasize > lsbb + stride
        invariant
            sl <= 3,
            lsbb == crate::shared_vmsa::spec_translation_size(d128, tgx, sl),
            lsbb < iasize,
            spec_start_level_from(d128, tgx, iasize, sl) == spec_start_level(d128, tgx, iasize),
            stride == crate::shared_vmsa::spec_stride(d128, tgx),
            granulebits == spec_granule_bits(tgx),
            iasize <= spec_granule_bits(tgx) + 4 * crate::shared_vmsa::spec_stride(d128, tgx),
        decreases sl,
    {
        proof {
            assert((3 - (sl - 1)) * crate::shared_vmsa::spec_stride(d128, tgx) == (3 - sl)
                * crate::shared_vmsa::spec_stride(d128, tgx) + crate::shared_vmsa::spec_stride(
                d128,
                tgx,
            )) by (nonlinear_arith)
                requires
                    1 <= sl <= 3,
            ;
        }
        sl = sl - 1;
        lsbb = lsbb + stride;
    }
    proof {
        assert(crate::shared_vmsa::spec_translation_size(d128, tgx, 0) == spec_granule_bits(tgx)
            + 3 * crate::shared_vmsa::spec_stride(d128, tgx)) by (nonlinear_arith)
            requires
                crate::shared_vmsa::spec_translation_size(d128, tgx, 0) == spec_granule_bits(tgx)
                    + (3 - 0) * crate::shared_vmsa::spec_stride(d128, tgx),
        ;
    }
    sl
}

/// The access-permission field a stage-1 leaf decodes to: AP[2:1] in bits
/// 2:1, with AP[2] cleared when the hardware dirty-state configuration and
/// the descriptor's dirty-bit-modifier already permit writes.
pub open spec fn spec_s1_leaf_ap(walkparams: S1TTWParams, low: u64) -> u8 {
    if walkparams.ha == 1 && walkparams.hd == 1 && ((low >> 51) & 1) == 1 {
        ((((low >> 6) & 1) * 2) as u8)
    } else {
        ((((low >> 7) & 1) * 4 + ((low >> 6) & 1) * 2) as u8)
    }
}

/// The stage-2 access-permission field a leaf decodes to: write permission
/// is granted when the hardware dirty-state configuration and the
/// descriptor's dirty-bit-modifier already permit it.
pub open spec fn spec_s2_leaf_s2ap(walkparams: S2TTWParams, low: u64) -> u8 {
    if walkparams.ha == 1 && walkparams.hd == 1 && ((low >> 51) & 1) == 1 {
        ((((low >> 6) & 3) | 2) as u8)
    } else {
        (((low >> 6) & 3) as u8)
    }
}

/// The output base address a leaf descriptor carries: its address bits with
/// those below the mapped range cleared.
pub open spec fn spec_leaf_oa_base(d128: u64, tgx: TGx, level: u64, low: u64) -> u64 {
    (low & 0x0000_FFFF_FFFF_FFFFu64) & !((((1u64 << ((crate::shared_vmsa::spec_translation_size(
        d128,
        tgx,
        level,
    )) as u64)) - 1) as u64))
}

/// Whether a stage-1 walk state is the decode of leaf descriptor word `low`:
/// a valid leaf whose access flag is set or hardware-updatable, whose
/// attribute, permission, hint and output-address fields the state carries.
pub open spec fn spec_s1_walkstate_decodes(
    walkparams: S1TTWParams,
    low: u64,
    ws: TTWState,
) -> bool {
    (low & 1) == 1 && ((low >> 10) & 1 == 1 || walkparams.ha != 0) && ws.guardedpage == (((low
        >> 50) & 1) == 1) && ws.nG == (((low >> 11) & 1) == 1) && ws.contiguous == ((((low >> 52)
        & 1) == 1) && walkparams.disch == 0) && ws.memattrs == spec_s1_attr_from_byte(
        (walkparams.mair >> (8 * ((low >> 2) & 7))) & 0xFF,
        (low >> 8) & 3,
    ) && ws.permissions.pxn == (((low >> 53) & 1) as u8) && ws.permissions.uxn == (((low >> 54)
        & 1) as u8) && ws.permissions.xn == (((low >> 54) & 1) as u8) && ws.permissions.ap
        == spec_s1_leaf_ap(walkparams, low) && ws.baseaddress.address == spec_leaf_oa_base(
        walkparams.d128,
        walkparams.tgx,
        ws.level,
        low,
    )
}

/// Whether a stage-2 walk state is the decode of leaf descriptor word `low`.
pub open spec fn spec_s2_walkstate_decodes(
    walkparams: S2TTWParams,
    low: u64,
    ws: TTWState,
) -> bool {
    (low & 1) == 1 && ((low >> 10) & 1 == 1 || walkparams.ha != 0) && ws.contiguous == (((low
        >> 52) & 1) == 1) && ws.memattrs == spec_s2_attr_from_bits((low >> 2) & 0xF, (low >> 8)
        & 3) && ws.permissions.s2xn == (((low >> 54) & 1) as u8) && ws.permissions.s2xnx == (((low
        >> 53) & 1) as u8) && ws.permissions.s2ap == spec_s2_leaf_s2ap(walkparams, low)
        && ws.baseaddress.address == spec_leaf_oa_base(
        walkparams.d128,
        walkparams.tgx,
        ws.level,
        low,
    )
}

/// The result of a spec-level table walk: the fault met (or none), the
/// level reached, the address and space of the final descriptor fetched,
/// the fetched descriptor, and the decoded leaf state.
#[derive(Debug, Copy, Clone, PartialEq, Eq, Structural)]
pub struct WalkOutcome {
    pub fault: Fault,
    pub level: u64,
    pub descaddress: u64,
    pub tablepas: PASpace,
    pub walkstate: TTWState,
    pub descriptor: u128,
}

/// A walk outcome that ends in a fault at `level`.
pub open spec fn spec_walk_fault(fault: Fault, level: u64, descaddress: u64, tablepas: PASpace)
    -> WalkOutcome {
    WalkOutcome {
        fault: fault,
        level: level,
        descaddress: descaddress,
        tablepas: tablepas,
        walkstate: spec_empty_walk_state(),
        descriptor: 0,
    }
}

/// The walk state a stage-1 leaf descriptor word decodes to, under the
/// hierarchical bits gathered on the way down.
pub open spec fn spec_s1_leaf_state(
    walkparams: S1TTWParams,
    low: u64,
    level: u64,
    tablepas: PASpace,
    ap_table: u64,
    uxn_table: u64,
    pxn_table: u64,
    ns_table: u64,
) -> TTWState {
    TTWState {
        istable: false,
        level: level,
        baseaddress: FullAddress {
            paspace: spec_leaf_paspace(tablepas, (((low >> 5) & 1) | ns_table) != 0),
            address: spec_leaf_oa_base(walkparams.d128, walkparams.tgx, level, low),
        },
        contiguous: ((low >> 52) & 1) == 1 && walkparams.disch == 0,
        s1assured: false,
        s2assuredonly: false,
        disch: walkparams.disch == 1,
        nG: ((low >> 11) & 1) == 1,
        guardedpage: ((low >> 50) & 1) == 1,
        sdftype: SDFType::SDFType_Invalid,
        domain: 0,
        memattrs: spec_s1_attr_from_byte(
            (walkparams.mair >> (8 * ((low >> 2) & 7))) & 0xFF,
            (low >> 8) & 3,
        ),
        permissions: Permissions {
            ap_table: ap_table as u8,
            xn_table: uxn_table as u8,
            pxn_table: pxn_table as u8,
            uxn_table: uxn_table as u8,
            ap: spec_s1_leaf_ap(walkparams, low),
            xn: ((low >> 54) & 1) as u8,
            uxn: ((low >> 54) & 1) as u8,
            pxn: ((low >> 53) & 1) as u8,
            s2ap: 0,
            s2xnx: 0,
            s2xn: 0,
        },
    }
}

/// The stage-1 walk over the tables `mem` holds, from one level down: fetch
/// the descriptor the input address indexes at this level, fault exactly as
/// the engine does, descend through tables, and decode the leaf.
#[verifier::opaque]
pub open spec fn spec_s1_walk_from(
    mem: PhysMem,
    walkparams: S1TTWParams,
    va: u64,
    startlevel: u64,
    level: u64,
    baseaddress: u64,
    tablepas: PASpace,
    ap_table: u64,
    uxn_table: u64,
    pxn_table: u64,
    ns_table: u64,
) -> WalkOutcome
    decreases 3 - level,
{
    let stride = ((crate::shared_vmsa::spec_stride(walkparams.d128, walkparams.tgx)) as u64);
    let dlog = ((crate::shared_vmsa::spec_desc_size_log2(walkparams.d128)) as u64);
    let iasize = ((64 - walkparams.txsz) as u64);
    let lsbb = ((crate::shared_vmsa::spec_translation_size(
        walkparams.d128,
        walkparams.tgx,
        level,
    )) as u64);
    let width = if level == startlevel {
        ((iasize - lsbb) as u64)
    } else {
        stride
    };
    let index = (va >> lsbb) & (((1u64 << width) - 1) as u64);
    let descaddress = ((baseaddress + (index << dlog)) as u64);
    match crate::physmem::spec_fetch_descriptor(mem, walkparams.ee, descaddress, walkparams.d128) {
        None => spec_walk_fault(Fault::Fault_SyncExternalOnWalk, level, descaddress, tablepas),
        Some(descriptor) => {
            let low = (descriptor as u64);
            if low & 1 == 0 {
                spec_walk_fault(Fault::Fault_Translation, level, descaddress, tablepas)
            } else if level < 3 && (low & 2) != 0 {
                let next = (low & 0x0000_FFFF_FFFF_FFFFu64) & !((((1u64 << ((spec_granule_bits(
                    walkparams.tgx,
                )) as u64)) - 1) as u64));
                if spec_pa_size(walkparams.ps) < 48 && (next >> ((spec_pa_size(walkparams.ps)) as u64))
                    != 0 {
                    spec_walk_fault(Fault::Fault_AddressSize, level, descaddress, tablepas)
                } else {
                    spec_s1_walk_from(
                        mem,
                        walkparams,
                        va,
                        startlevel,
                        ((level + 1) as u64),
                        next,
                        tablepas,
                        if walkparams.hpd == 0 {
                            ap_table | ((low >> 61) & 3)
                        } else {
                            ap_table
                        },
                        if walkparams.hpd == 0 {
                            uxn_table | ((low >> 60) & 1)
                        } else {
                            uxn_table
                        },
                        if walkparams.hpd == 0 {
                            pxn_table | ((low >> 59) & 1)
                        } else {
                            pxn_table
                        },
                        ns_table | ((low >> 63) & 1),
                    )
                }
            } else {
                if level < 3 && !(if walkparams.tgx == TGx::TGx_4KB {
                    level >= 1
                } else {
                    level == 2
                }) {
                    spec_walk_fault(Fault::Fault_Translation, level, descaddress, tablepas)
                } else if level == 3 && (low & 2) == 0 {
                    spec_walk_fault(Fault::Fault_Translation, level, descaddress, tablepas)
                } else if (low >> 10) & 1 == 0 && walkparams.ha == 0 {
                    spec_walk_fault(Fault::Fault_AccessFlag, level, descaddress, tablepas)
                } else {
                    let oabase = spec_leaf_oa_base(walkparams.d128, walkparams.tgx, level, low);
                    if spec_pa_size(walkparams.ps) < 48 && (oabase >> ((spec_pa_size(
                        walkparams.ps,
                    )) as u64)) != 0 {
                        spec_walk_fault(Fault::Fault_AddressSize, level, descaddress, tablepas)
                    } else {
                        WalkOutcome {
                            fault: Fault::Fault_None,
                            level: level,
                            descaddress: descaddress,
                            tablepas: tablepas,
                            walkstate: spec_s1_leaf_state(
                                walkparams,
                                low,
                                level,
                                tablepas,
                                ap_table,
                                uxn_table,
                                pxn_table,
                                ns_table,
                            ),
                            descriptor: descriptor,
                        }
                    }
                }
            }
        },
    }
}

/// The whole stage-1 walk the tables in `mem` determine for `va` from the
/// given table base.
pub open spec fn spec_s1_walk(mem: PhysMem, walkparams: S1TTWParams, va: u64, ttb: FullAddress)
    -> WalkOutcome {
    let sl = spec_start_level(walkparams.d128, walkparams.tgx, ((64 - walkparams.txsz) as u64));
    spec_s1_walk_from(mem, walkparams, va, sl, sl, ttb.address, ttb.paspace, 0, 0, 0, 0)
}

/// The walk state a stage-2 leaf descriptor word decodes to.
pub open spec fn spec_s2_leaf_state(
    walkparams: S2TTWParams,
    low: u64,
    level: u64,
    outpas: PASpace,
) -> TTWState {
    TTWState {
        istable: false,
        level: level,
        baseaddress: FullAddress {
            paspace: outpas,
            address: spec_leaf_oa_base(walkparams.d128, walkparams.tgx, level, low),
        },
        contiguous: ((low >> 52) & 1) == 1,
        s1assured: false,
        s2assuredonly: false,
        disch: false,
        nG: false,
        guardedpage: false,
        sdftype: SDFType::SDFType_Invalid,
        domain: 0,
        memattrs: spec_s2_attr_from_bits((low >> 2) & 0xF, (low >> 8) & 3),
        permissions: Permissions {
            ap_table: 0,
            xn_table: 0,
            pxn_table: 0,
            uxn_table: 0,
            ap: 0,
            xn: 0,
            uxn: 0,
            pxn: 0,
            s2ap: spec_s2_leaf_s2ap(walkparams, low),
            s2xnx: ((low >> 53) & 1) as u8,
            s2xn: ((low >> 54) & 1) as u8,
        },
    }
}

/// The stage-2 walk over the tables `mem` holds, from one level down:
/// stage-2 tables carry no hierarchical bits, and the leaf keeps the
/// intermediate address's space.
#[verifier::opaque]
pub open spec fn spec_s2_walk_from(
    mem: PhysMem,
    walkparams: S2TTWParams,
    ia: u64,
    startlevel: u64,
    level: u64,
    baseaddress: u64,
    tablepas: PASpace,
    outpas: PASpace,
) -> WalkOutcome
    decreases 3 - level,
{
    let stride = ((crate::shared_vmsa::spec_stride(walkparams.d128, walkparams.tgx)) as u64);
    let dlog = ((crate::shared_vmsa::spec_desc_size_log2(walkparams.d128)) as u64);
    let iasize = ((64 - walkparams.txsz) as u64);
    let lsbb = ((crate::shared_vmsa::spec_translation_size(
        walkparams.d128,
        walkparams.tgx,
        level,
    )) as u64);
    let width = if level == startlevel {
        ((iasize - lsbb) as u64)
    } else {
        stride
    };
    let index = (ia >> lsbb) & (((1u64 << width) - 1) as u64);
    let descaddress = ((baseaddress + (index << dlog)) as u64);
    match crate::physmem::spec_fetch_descriptor(mem, walkparams.ee, descaddress, walkparams.d128) {
        None => spec_walk_fault(Fault::Fault_SyncExternalOnWalk, level, descaddress, tablepas),
        Some(descriptor) => {
            let low = (descriptor as u64);
            if low & 1 == 0 {
                spec_walk_fault(Fault::Fault_Translation, level, descaddress, tablepas)
            } else if level < 3 && (low & 2) != 0 {
                let next = (low & 0x0000_FFFF_FFFF_FFFFu64) & !((((1u64 << ((spec_granule_bits(
                    walkparams.tgx,
                )) as u64)) - 1) as u64));
                if spec_pa_size(walkparams.ps) < 48 && (next >> ((spec_pa_size(walkparams.ps)) as u64))
                    != 0 {
                    spec_walk_fault(Fault::Fault_AddressSize, level, descaddress, tablepas)
                } else {
                    spec_s2_walk_from(
                        mem,
                        walkparams,
                        ia,
                        startlevel,
                        ((level + 1) as u64),
                        next,
                        tablepas,
                        outpas,
                    )
                }
            } else {
                if level < 3 && !(if walkparams.tgx == TGx::TGx_4KB {
                    level >= 1
                } else {
                    level == 2
                }) {
                    spec_walk_fault(Fault::Fault_Translation, level, descaddress, tablepas)
                } else if level == 3 && (low & 2) == 0 {
                    spec_walk_fault(Fault::Fault_Translation, level, descaddress, tablepas)
                } else if (low >> 10) & 1 == 0 && walkparams.ha == 0 {
                    spec_walk_fault(Fault::Fault_AccessFlag, level, descaddress, tablepas)
                } else {
                    let oabase = spec_leaf_oa_base(walkparams.d128, walkparams.tgx, level, low);
                    if spec_pa_size(walkparams.ps) < 48 && (oabase >> ((spec_pa_size(
                        walkparams.ps,
                    )) as u64)) != 0 {
                        spec_walk_fault(Fault::Fault_AddressSize, level, descaddress, tablepas)
                    } else {
                        WalkOutcome {
                            fault: Fault::Fault_None,
                            level: level,
                            descaddress: descaddress,
                            tablepas: tablepas,
                            walkstate: spec_s2_leaf_state(walkparams, low, level, outpas),
                            descriptor: descriptor,
                        }
                    }
                }
            }
        },
    }
}

/// The whole stage-2 walk the tables in `mem` determine for the
/// intermediate address `ia`.
pub open spec fn spec_s2_walk(
    mem: PhysMem,
    walkparams: S2TTWParams,
    ia: u64,
    ttb: FullAddress,
    outpas: PASpace,
) -> WalkOutcome {
    let sl = spec_start_level(walkparams.d128, walkparams.tgx, ((64 - walkparams.txsz) as u64));
    spec_s2_walk_from(mem, walkparams, ia, sl, sl, ttb.address, ttb.paspace, outpas)
}

/// Traverse the stage-1 translation tables for `va`, producing the final
/// descriptor (widened to 128 bits), the physical address the descriptor
/// itself lives at, and the walk state the leaf decodes to. Any fault met on
/// the way — an external abort on a fetch, an invalid or misplaced
/// descriptor, an output address beyond the configured size, or a cleared
/// access flag without hardware update — ends the walk at once.
#[verifier::rlimit(100)]
#[verifier::spinoff_prover]
pub fn AArch64S1Walk_128(
    state: &ArchState,
    mem: &PhysMem,
    fault_in: FaultRecord,
    walkparams: S1TTWParams,
    va: u64,
    regime: Regime,
    accdesc: AccessDescriptor,
) -> (r: (FaultRecord, AddressDescriptor, TTWState, u128))
    requires
        state.wf(),
        mem.wf(),
        walkparams.wf(),
        fault_in.is_clear(),
        spec_s1_min_txsz(walkparams.d128, walkparams.tgx) <= walkparams.txsz <= 39,
    ensures
        r.2.wf(),
        r.0.statuscode == Fault::Fault_None ==> ((r.1.paddress is Some) && r.1.fault.is_clear()
            && r.1.vaddress == va),
        r.0.statuscode != Fault::Fault_None ==> (r.1.paddress is None),
        (r.0.statuscode == Fault::Fault_None || r.0.statuscode == Fault::Fault_Translation
            || r.0.statuscode == Fault::Fault_AddressSize || r.0.statuscode
            == Fault::Fault_AccessFlag || r.0.statuscode == Fault::Fault_SyncExternalOnWalk),
        r.0.acctype == fault_in.acctype,
        r.0.write == fault_in.write,
        r.0.secondstage == fault_in.secondstage,
        r.0.s2fs1walk == fault_in.s2fs1walk,
        r.0.level <= 3,
        r.0.statuscode == Fault::Fault_None ==> spec_s1_walkstate_decodes(
            walkparams,
            (r.3 as u64),
            r.2,
        ),
        r.0.statuscode == Fault::Fault_None ==> r.2.level == r.0.level,
        ({
            let o = spec_s1_walk(*mem, walkparams, va, crate::sysregs::spec_s1_ttb(*state, va));
            r.0 == (FaultRecord { statuscode: o.fault, level: o.level, ..fault_in }) && r.2
                == o.walkstate && r.3 == o.descriptor && (o.fault == Fault::Fault_None ==> r.1
                == crate::shared_vmsa::spec_created_descriptor(
                va,
                (FullAddress { paspace: o.tablepas, address: o.descaddress }),
                crate::shared_memory::spec_normal_nc_memattrs(),
            )) && (o.fault != Fault::Fault_None ==> r.1
                == crate::shared_vmsa::spec_faulty_descriptor(va, r.0))
        }),
{
    let d128: u64 = walkparams.d128;
    let tgx: TGx = walkparams.tgx;
    let granulebits: u64 = TGxGranuleBits(tgx);
    let stride: u64 = granulebits - (if d128 == 1 {
        4
    } else {
        3
    });
    let descsizelog2: u64 = if d128 == 1 {
        4
    } else {
        3
    };
    let iasize: u64 = 64 - walkparams.txsz;
    let startlevel: u64 = walk_start_level(d128, tgx, iasize);
    let ttb: FullAddress = if va & 0x0080_0000_0000_0000u64 == 0 {
        state.ttb_lower
    } else {
        state.ttb_upper
    };
    let pasize: u64 = DecodePASize(walkparams.ps);
    let mut level: u64 = startlevel;
    let mut baseaddress: u64 = ttb.address;
    let baspas: PASpace = ttb.paspace;
    let mut ap_table: u64 = 0;
    let mut pxn_table: u64 = 0;
    let mut uxn_table: u64 = 0;
    let mut ns_table: u64 = 0;
    let mut fault: FaultRecord = fault_in;
    loop
        invariant
            startlevel <= level <= 3,
            baseaddress < 0x10_0000_0000_0000u64,
            ap_table <= 3,
            pxn_table <= 1,
            uxn_table <= 1,
            ns_table <= 1,
            fault == (FaultRecord {
                statuscode: Fault::Fault_None,
                level: fault.level,
                ..fault_in
            }),
            ttb == crate::sysregs::spec_s1_ttb(*state, va),
            baspas == ttb.paspace,
            startlevel == spec_start_level(walkparams.d128, walkparams.tgx, iasize),
            spec_s1_walk_from(
                *mem,
                walkparams,
                va,
                startlevel,
                level,
                baseaddress,
                baspas,
                ap_table,
                uxn_table,
                pxn_table,
                ns_table,
            ) == spec_s1_walk(*mem, walkparams, va, crate::sysregs::spec_s1_ttb(*state, va)),
            mem.wf(),
            walkparams.wf(),
            fault_in.is_clear(),
            d128 == walkparams.d128,
            tgx == walkparams.tgx,
            granulebits == spec_granule_bits(tgx),
            stride == crate::shared_vmsa::spec_stride(d128, tgx),
            descsizelog2 == crate::shared_vmsa::spec_desc_size_log2(d128),
            iasize == 64 - walkparams.txsz,
            crate::shared_vmsa::spec_translation_size(d128, tgx, startlevel) < iasize,
            iasize <= crate::shared_vmsa::spec_translation_size(d128, tgx, startlevel)
                + crate::shared_vmsa::spec_stride(d128, tgx),
            iasize <= 52,
            pasize == spec_pa_size(walkparams.ps),
        decreases 3 - level,
    {
        proof {
            reveal(spec_s1_walk_from);
        }
        let lsbb: u64 = TranslationSize(d128, tgx, level);
        let width: u64 = if level == startlevel {
            iasize - lsbb
        } else {
            stride
        };
        proof {
            crate::bitops::lemma_shl1_pos(width);
            crate::bitops::lemma_index_offset_bound(va, lsbb, width, descsizelog2);
        }
        let index: u64 = (va >> lsbb) & ((1u64 << width) - 1);
        let descaddress: u64 = baseaddress + (index << descsizelog2);
        fault.level = level;
        let fetched = FetchDescriptor(mem, walkparams.ee, descaddress, d128, fault);
        fault = fetched.0;
        let descriptor: u128 = fetched.1;
        if !matches!(fault.statuscode, Fault::Fault_None) {
            let out = crate::shared_vmsa::CreateFaultyAddressDescriptor(va, fault);
            return (fault, out, empty_walk_state(), 0);
        }
        let low: u64 = #[verifier::truncate] (descriptor as u64);
        if low & 1 == 0 {
            fault.statuscode = Fault::Fault_Translation;
            let out = crate::shared_vmsa::CreateFaultyAddressDescriptor(va, fault);
            return (fault, out, empty_walk_state(), 0);
        }
        if level < 3 && (low & 2) != 0 {
            // A table descriptor: descend, gathering the hierarchical
            // permission bits unless they are disabled.
            proof {
                crate::bitops::lemma_shl1_pos(granulebits);
                crate::bitops::lemma_and_le(low, 0x0000_FFFF_FFFF_FFFFu64);
                crate::bitops::lemma_and_le_left(
                    low & 0x0000_FFFF_FFFF_FFFFu64,
                    !((((1u64 << granulebits) - 1)) as u64),
                );
                crate::bitops::lemma_and_le(low >> 61, 3);
                crate::bitops::lemma_and_le(low >> 60, 1);
                crate::bitops::lemma_and_le(low >> 59, 1);
                crate::bitops::lemma_and_le(low >> 63, 1);
            }
            let next: u64 = (low & 0x0000_FFFF_FFFF_FFFFu64) & !((1u64 << granulebits) - 1);
            if pasize < 48 && (next >> pasize) != 0 {
                fault.statuscode = Fault::Fault_AddressSize;
                let out = crate::shared_vmsa::CreateFaultyAddressDescriptor(va, fault);
                return (fault, out, empty_walk_state(), 0);
            }
            proof {
                crate::bitops::lemma_or_le_3(ap_table, (low >> 61) & 3);
                crate::bitops::lemma_or_le_1(uxn_table, (low >> 60) & 1);
                crate::bitops::lemma_or_le_1(pxn_table, (low >> 59) & 1);
                crate::bitops::lemma_or_le_1(ns_table, (low >> 63) & 1);
            }
            if walkparams.hpd == 0 {
                ap_table = ap_table | ((low >> 61) & 3);
                uxn_table = uxn_table | ((low >> 60) & 1);
                pxn_table = pxn_table | ((low >> 59) & 1);
            }
            ns_table = ns_table | ((low >> 63) & 1);
            baseaddress = next;
            level = level + 1;
        } else {
            // A leaf: a block above the final level, or a page at it.
            if level < 3 {
                let block_ok: bool = if matches!(tgx, TGx::TGx_4KB) {
                    level >= 1
                } else {
                    level == 2
                };
                if !block_ok {
                    fault.statuscode = Fault::Fault_Translation;
                    let out = crate::shared_vmsa::CreateFaultyAddressDescriptor(va, fault);
                    return (fault, out, empty_walk_state(), 0);
                }
            } else if (low & 2) == 0 {
                // The block encoding is reserved at the final level.
                fault.statuscode = Fault::Fault_Translation;
                let out = crate::shared_vmsa::CreateFaultyAddressDescriptor(va, fault);
                return (fault, out, empty_walk_state(), 0);
            }
            if (low >> 10) & 1 == 0 && walkparams.ha == 0 {
                fault.statuscode = Fault::Fault_AccessFlag;
                let out = crate::shared_vmsa::CreateFaultyAddressDescriptor(va, fault);
                return (fault, out, empty_walk_state(), 0);
            }
            proof {
                crate::bitops::lemma_shl1_pos(lsbb);
                crate::bitops::lemma_and_le(low, 1);
                crate::bitops::lemma_and_le(low >> 10, 1);
                crate::bitops::lemma_and_le(low, 0x0000_FFFF_FFFF_FFFFu64);
                crate::bitops::lemma_and_le_left(
                    low & 0x0000_FFFF_FFFF_FFFFu64,
                    !((((1u64 << lsbb) - 1)) as u64),
                );
                crate::bitops::lemma_and_le(low >> 6, 1);
                crate::bitops::lemma_and_le(low >> 7, 1);
                crate::bitops::lemma_and_le(low >> 51, 1);
                crate::bitops::lemma_and_le(low >> 53, 1);
                crate::bitops::lemma_and_le(low >> 54, 1);
                crate::bitops::lemma_and_le(low >> 2, 7);
                crate::bitops::lemma_and_le(low >> 8, 3);
                crate::bitops::lemma_and_le(low >> 5, 1);
            }
            let oabase: u64 = (low & 0x0000_FFFF_FFFF_FFFFu64) & !((1u64 << lsbb) - 1);
            if pasize < 48 && (oabase >> pasize) != 0 {
                fault.statuscode = Fault::Fault_AddressSize;
                let out = crate::shared_vmsa::CreateFaultyAddressDescriptor(va, fault);
                return (fault, out, empty_walk_state(), 0);
            }
            let ap1: u64 = (low >> 6) & 1;
            let dbm: u64 = (low >> 51) & 1;
            let ap2: u64 = if walkparams.ha == 1 && walkparams.hd == 1 && dbm == 1 {
                0
            } else {
                (low >> 7) & 1
            };
            let perms = Permissions {
                ap_table: ap_table as u8,
                xn_table: uxn_table as u8,
                pxn_table: pxn_table as u8,
                uxn_table: uxn_table as u8,
                ap: (ap2 * 4 + ap1 * 2) as u8,
                xn: ((low >> 54) & 1) as u8,
                uxn: ((low >> 54) & 1) as u8,
                pxn: ((low >> 53) & 1) as u8,
                s2ap: 0,
                s2xnx: 0,
                s2xn: 0,
            };
            let attrindx: u64 = (low >> 2) & 7;
            let sh: u64 = (low >> 8) & 3;
            let memattrs = S1DecodeMemAttrs(attrindx, walkparams.mair, sh);
            let ns: u64 = ((low >> 5) & 1) | ns_table;
            let paspace = leaf_paspace(baspas, ns != 0);
            let walkstate = TTWState {
                istable: false,
                level: level,
                baseaddress: FullAddress { paspace: paspace, address: oabase },
                contiguous: ((low >> 52) & 1) == 1 && walkparams.disch == 0,
                s1assured: false,
                s2assuredonly: false,
                disch: walkparams.disch == 1,
                nG: ((low >> 11) & 1) == 1,
                guardedpage: ((low >> 50) & 1) == 1,
                sdftype: SDFType::SDFType_Invalid,
                domain: 0,
                memattrs: memattrs,
                permissions: perms,
            };
            let descipaddr = CreateAddressDescriptor(
                va,
                FullAddress { paspace: baspas, address: descaddress },
                crate::shared_memory::NormalNCMemAttr(),
            );
            return (fault, descipaddr, walkstate, descriptor);
        }
    }
}

/// Traverse the stage-2 translation tables for an intermediate-physical
/// address, with the same structure as the stage-1 walk: stage-2 tables
/// carry no hierarchical permission bits, their leaf permissions are the two
/// stage-2 access bits and the stage-2 execute-never bits, and their
/// attributes stand directly in the descriptor.
#[verifier::rlimit(100)]
pub fn AArch64S2Walk(
    state: &ArchState,
    mem: &PhysMem,
    fault_in: FaultRecord,
    ipa: AddressDescriptor,
    walkparams: S2TTWParams,
    accdesc: AccessDescriptor,
) -> (r: (FaultRecord, AddressDescriptor, TTWState, u128))
    requires
        state.wf(),
        mem.wf(),
        walkparams.wf(),
        fault_in.is_clear(),
        ipa.paddress is Some,
        spec_s1_min_txsz(walkparams.d128, walkparams.tgx) <= walkparams.txsz <= 39,
    ensures
        r.2.wf(),
        r.0.statuscode == Fault::Fault_None ==> ((r.1.paddress is Some) && r.1.fault.is_clear()
            && r.1.vaddress == ipa.vaddress),
        r.0.statuscode != Fault::Fault_None ==> (r.1.paddress is None),
        (r.0.statuscode == Fault::Fault_None || r.0.statuscode == Fault::Fault_Translation
            || r.0.statuscode == Fault::Fault_AddressSize || r.0.statuscode
            == Fault::Fault_AccessFlag || r.0.statuscode == Fault::Fault_SyncExternalOnWalk),
        r.0.acctype == fault_in.acctype,
        r.0.write == fault_in.write,
        r.0.secondstage == fault_in.secondstage,
        r.0.s2fs1walk == fault_in.s2fs1walk,
        r.0.level <= 3,
        r.0.statuscode == Fault::Fault_None ==> (spec_s2_walkstate_decodes(
            walkparams,
            (r.3 as u64),
            r.2,
        ) && r.2.baseaddress.paspace == ipa.paddress.unwrap().paspace),
        r.0.statuscode == Fault::Fault_None ==> r.2.level == r.0.level,
        ({
            let o = spec_s2_walk(
                *mem,
                walkparams,
                ipa.paddress.unwrap().address,
                state.s2_ttb,
                ipa.paddress.unwrap().paspace,
            );
            r.0 == (FaultRecord { statuscode: o.fault, level: o.level, ..fault_in }) && r.2
                == o.walkstate && r.3 == o.descriptor && (o.fault == Fault::Fault_None ==> r.1
                == crate::shared_vmsa::spec_created_descriptor(
                ipa.vaddress,
                (FullAddress { paspace: o.tablepas, address: o.descaddress }),
                crate::shared_memory::spec_normal_nc_memattrs(),
            )) && (o.fault != Fault::Fault_None ==> r.1
                == crate::shared_vmsa::spec_faulty_descriptor(ipa.vaddress, r.0))
        }),
{
    let ia: u64 = ipa.paddress.unwrap().address;
    let d128: u64 = walkparams.d128;
    let tgx: TGx = walkparams.tgx;
    let granulebits: u64 = TGxGranuleBits(tgx);
    let stride: u64 = granulebits - (if d128 == 1 {
        4
    } else {
        3
    });
    let descsizelog2: u64 = if d128 == 1 {
        4
    } else {
        3
    };
    let iasize: u64 = 64 - walkparams.txsz;
    let startlevel: u64 = walk_start_level(d128, tgx, iasize);
    let pasize: u64 = DecodePASize(walkparams.ps);
    let mut level: u64 = startlevel;
    let mut baseaddress: u64 = state.s2_ttb.address;
    let baspas: PASpace = ipa.paddress.unwrap().paspace;
    let mut fault: FaultRecord = fault_in;
    loop
        invariant
            startlevel <= level <= 3,
            baseaddress < 0x10_0000_0000_0000u64,
            fault == (FaultRecord {
                statuscode: Fault::Fault_None,
                level: fault.level,
                ..fault_in
            }),
            startlevel == spec_start_level(walkparams.d128, walkparams.tgx, iasize),
            spec_s2_walk_from(
                *mem,
                walkparams,
                ia,
                startlevel,
                level,
                baseaddress,
                state.s2_ttb.paspace,
                baspas,
            ) == spec_s2_walk(*mem, walkparams, ia, state.s2_ttb, baspas),
            mem.wf(),
            walkparams.wf(),
            fault_in.is_clear(),
            ipa.paddress is Some,
            ia == ipa.paddress.unwrap().address,
            baspas == ipa.paddress.unwrap().paspace,
            d128 == walkparams.d128,
            tgx == walkparams.tgx,
            granulebits == spec_granule_bits(tgx),
            stride == crate::shared_vmsa::spec_stride(d128, tgx),
            descsizelog2 == crate::shared_vmsa::spec_desc_size_log2(d128),
            iasize == 64 - walkparams.txsz,
            crate::shared_vmsa::spec_translation_size(d128, tgx, startlevel) < iasize,
            iasize <= crate::shared_vmsa::spec_translation_size(d128, tgx, startlevel)
                + crate::shared_vmsa::spec_stride(d128, tgx),
            iasize <= 52,
            pasize == spec_pa_size(walkparams.ps),
        decreases 3 - level,
    {
        proof {
            reveal(spec_s2_walk_from);
        }
        let lsbb: u64 = TranslationSize(d128, tgx, level);
        let width: u64 = if level == startlevel {
            iasize - lsbb
        } else {
            stride
        };
        proof {
            crate::bitops::lemma_shl1_pos(width);
            crate::bitops::lemma_index_offset_bound(ia, lsbb, width, descsizelog2);
        }
        let index: u64 = (ia >> lsbb) & ((1u64 << width) - 1);
        let descaddress: u64 = baseaddress + (index << descsizelog2);
        fault.level = level;
        let fetched = FetchDescriptor(mem, walkparams.ee, descaddress, d128, fault);
        fault = fetched.0;
        let descriptor: u128 = fetched.1;
        if !matches!(fault.statuscode, Fault::Fault_None) {
            let out = crate::shared_vmsa::CreateFaultyAddressDescriptor(ipa.vaddress, fault);
            return (fault, out, empty_walk_state(), 0);
        }
        let low: u64 = #[verifier::truncate] (descriptor as u64);
        if low & 1 == 0 {
            fault.statuscode = Fault::Fault_Translation;
            let out = crate::shared_vmsa::CreateFaultyAddressDescriptor(ipa.vaddress, fault);
            return (fault, out, empty_walk_state(), 0);
        }
        if level < 3 && (low & 2) != 0 {
            proof {
                crate::bitops::lemma_shl1_pos(granulebits);
                crate::bitops::lemma_and_le(low, 0x0000_FFFF_FFFF_FFFFu64);
                crate::bitops::lemma_and_le_left(
                    low & 0x0000_FFFF_FFFF_FFFFu64,
                    !((((1u64 << granulebits) - 1)) as u64),
                );
            }
            let next: u64 = (low & 0x0000_FFFF_FFFF_FFFFu64) & !((1u64 << granulebits) - 1);
            if pasize < 48 && (next >> pasize) != 0 {
                fault.statuscode = Fault::Fault_AddressSize;
                let out = crate::shared_vmsa::CreateFaultyAddressDescriptor(ipa.vaddress, fault);
                return (fault, out, empty_walk_state(), 0);
            }
            baseaddress = next;
            level = level + 1;
        } else {
            if level < 3 {
                let block_ok: bool = if matches!(tgx, TGx::TGx_4KB) {
                    level >= 1
                } else {
                    level == 2
                };
                if !block_ok {
                    fault.statuscode = Fault::Fault_Translation;
                    let out = crate::shared_vmsa::CreateFaultyAddressDescriptor(
                        ipa.vaddress,
                        fault,
                    );
                    return (fault, out, empty_walk_state(), 0);
                }
            } else if (low & 2) == 0 {
                fault.statuscode = Fault::Fault_Translation;
                let out = crate::shared_vmsa::CreateFaultyAddressDescriptor(ipa.vaddress, fault);
                return (fault, out, empty_walk_state(), 0);
            }
            if (low >> 10) & 1 == 0 && walkparams.ha == 0 {
                fault.statuscode = Fault::Fault_AccessFlag;
                let out = crate::shared_vmsa::CreateFaultyAddressDescriptor(ipa.vaddress, fault);
                return (fault, out, empty_walk_state(), 0);
            }
            proof {
                crate::bitops::lemma_shl1_pos(lsbb);
                crate::bitops::lemma_and_le(low, 1);
                crate::bitops::lemma_and_le(low >> 10, 1);
                crate::bitops::lemma_and_le(low, 0x0000_FFFF_FFFF_FFFFu64);
                crate::bitops::lemma_and_le_left(
                    low & 0x0000_FFFF_FFFF_FFFFu64,
                    !((((1u64 << lsbb) - 1)) as u64),
                );
                crate::bitops::lemma_and_le(low >> 6, 3);
                crate::bitops::lemma_and_le(low >> 51, 1);
                crate::bitops::lemma_and_le(low >> 53, 1);
                crate::bitops::lemma_and_le(low >> 54, 1);
                crate::bitops::lemma_and_le(low >> 2, 0xF);
                crate::bitops::lemma_and_le(low >> 8, 3);
            }
            let oabase: u64 = (low & 0x0000_FFFF_FFFF_FFFFu64) & !((1u64 << lsbb) - 1);
            if pasize < 48 && (oabase >> pasize) != 0 {
                fault.statuscode = Fault::Fault_AddressSize;
                let out = crate::shared_vmsa::CreateFaultyAddressDescriptor(ipa.vaddress, fault);
                return (fault, out, empty_walk_state(), 0);
            }
            let dbm: u64 = (low >> 51) & 1;
            let s2ap_raw: u64 = (low >> 6) & 3;
            proof {
                crate::bitops::lemma_or_le_3(s2ap_raw, 2);
            }
            let s2ap: u64 = if walkparams.ha == 1 && walkparams.hd == 1 && dbm == 1 {
                s2ap_raw | 2
            } else {
                s2ap_raw
            };
            let perms = Permissions {
                ap_table: 0,
                xn_table: 0,
                pxn_table: 0,
                uxn_table: 0,
                ap: 0,
                xn: 0,
                uxn: 0,
                pxn: 0,
                s2ap: s2ap as u8,
                s2xnx: ((low >> 53) & 1) as u8,
                s2xn: ((low >> 54) & 1) as u8,
            };
            let attr: u64 = (low >> 2) & 0xF;
            let sh: u64 = (low >> 8) & 3;
            let memattrs = S2DecodeMemAttrs(attr, sh);
            let walkstate = TTWState {
                istable: false,
                level: level,
                baseaddress: FullAddress { paspace: baspas, address: oabase },
                contiguous: ((low >> 52) & 1) == 1,
                s1assured: false,
                s2assuredonly: false,
                disch: false,
                nG: false,
                guardedpage: false,
                sdftype: SDFType::SDFType_Invalid,
                domain: 0,
                memattrs: memattrs,
                permissions: perms,
            };
            let descpaddr = CreateAddressDescriptor(
                ipa.vaddress,
                FullAddress { paspace: state.s2_ttb.paspace, address: descaddress },
                crate::shared_memory::NormalNCMemAttr(),
            );
            return (fault, descpaddr, walkstate, descriptor);
        }
    }
}

/// Whether a stage-2 mapping admits the access: the two stage-2 access-
/// permission bits grant reads and writes, and the stage-2 execute-never
/// bit withdraws instruction fetch.
pub open spec fn spec_s2_permit(walkstate: TTWState, accdesc: AccessDescriptor) -> bool {
    let p = walkstate.permissions;
    if accdesc.acctype == AccessType::AccessType_IFETCH {
        p.s2xn == 0
    } else {
        (!accdesc.read || (p.s2ap & 1) != 0) && (!accdesc.write || (p.s2ap & 2) != 0)
    }
}

/// Whether the stage-2 mapping is mostly-read-only for stage 1: readable but
/// not writable.
pub open spec fn spec_s2_mro(walkstate: TTWState) -> bool {
    (walkstate.permissions.s2ap & 1) != 0 && (walkstate.permissions.s2ap & 2) == 0
}

/// Evaluate the stage-2 permissions of the walk result against the access;
/// also reports whether the mapping is mostly-read-only for stage 1.
pub fn AArch64S2CheckPermissions(
    fault: FaultRecord,
    walkstate: TTWState,
    _walkparams: S2TTWParams,
    _ipa: AddressDescriptor,
    accdesc: AccessDescriptor,
) -> (r: (FaultRecord, bool))
    ensures
        spec_s2_permit(walkstate, accdesc) ==> r.0 == fault,
        !spec_s2_permit(walkstate, accdesc) ==> r.0 == (FaultRecord {
            statuscode: Fault::Fault_Permission,
            level: walkstate.level,
            ..fault
        }),
        r.1 == spec_s2_mro(walkstate),
{
    let p = walkstate.permissions;
    let permitted: bool = if matches!(accdesc.acctype, AccessType::AccessType_IFETCH) {
        p.s2xn == 0
    } else {
        (!accdesc.read || (p.s2ap & 1) != 0) && (!accdesc.write || (p.s2ap & 2) != 0)
    };
    let mro: bool = (p.s2ap & 1) != 0 && (p.s2ap & 2) == 0;
    if permitted {
        (fault, mro)
    } else {
        let mut f = fault;
        f.statuscode = Fault::Fault_Permission;
        f.level = walkstate.level;
        (f, mro)
    }
}

} // verus!
