//! VMSA translation-walk data: walk parameters, walk state, address
//! descriptors, and the pure address-arithmetic helpers of the walk.
use vstd::prelude::*;

verus! {

use crate::shared_memory::{FaultRecord, FullAddress, MemoryAttributes, Permissions,
    VARange};
use crate::shared_translation::Regime;
use crate::sysregs::ArchState;

/// The deepest translation-table level.
pub const FINAL_LEVEL: u64 = 3;

/// Privilege levels.
#[derive(Debug, Copy, Clone, PartialEq, Eq, Structural)]
pub enum PrivilegeLevel {
    PL3,
    PL2,
    PL1,
    PL0,
}

pub const EL3: PrivilegeLevel = PrivilegeLevel::PL3;

pub const EL2: PrivilegeLevel = PrivilegeLevel::PL2;

pub const EL1: PrivilegeLevel = PrivilegeLevel::PL1;

pub const EL0: PrivilegeLevel = PrivilegeLevel::PL0;

/// Translation result: the embedded fault record says whether the output
/// address is valid; a usable physical address is present exactly when the
/// fault record is clear.
#[derive(Debug, Copy, Clone, PartialEq, Eq)]
pub struct AddressDescriptor {
    /// `fault.statuscode` indicates whether the address is valid
    pub fault: FaultRecord,
    pub memattrs: MemoryAttributes,
    /// The output address; absent on a faulty descriptor
    pub paddress: Option<FullAddress>,
    /// Stage 1 assured-translation property
    pub s1assured: bool,
    /// Stage 2 mostly-read-only permission for stage 1
    pub s2fs1mro: bool,
    /// Memory-encryption context id, bits(16)
    pub mecid: u16,
    /// The virtual address the translation started from, bits(64)
    pub vaddress: u64,
}

impl AddressDescriptor {
    /// A usable output address is present.
    pub open spec fn has_output(self) -> bool {
        self.paddress is Some
    }

    /// The fault record is clear exactly when an output address is present.
    pub open spec fn output_consistent(self) -> bool {
        self.fault.is_clear() <==> self.paddress is Some
    }
}

/// The descriptor a faulty translation returns: it carries only the input
/// virtual address and the fault.
pub open spec fn spec_faulty_descriptor(va: u64, fault: FaultRecord) -> AddressDescriptor {
    AddressDescriptor {
        fault: fault,
        memattrs: crate::shared_memory::spec_normal_nc_memattrs(),
        paddress: None,
        s1assured: false,
        s2fs1mro: false,
        mecid: 0,
        vaddress: va,
    }
}

/// The descriptor a successful translation returns, for use in contracts.
pub open spec fn spec_created_descriptor(va: u64, pa: FullAddress, memattrs: MemoryAttributes)
    -> AddressDescriptor {
    AddressDescriptor {
        fault: crate::shared_memory::spec_no_fault_record(),
        memattrs: memattrs,
        paddress: Some(pa),
        s1assured: false,
        s2fs1mro: false,
        mecid: 0,
        vaddress: va,
    }
}

/// Build an address descriptor for a successful translation.
pub fn CreateAddressDescriptor(va: u64, pa: FullAddress, memattrs: MemoryAttributes) -> (r:
    AddressDescriptor)
    ensures
        r == spec_created_descriptor(va, pa, memattrs),
        r.fault.is_clear(),
        r.paddress == Some(pa),
        r.memattrs == memattrs,
        r.vaddress == va,
        !r.s1assured,
        !r.s2fs1mro,
        r.mecid == 0,
        r.output_consistent(),
{
    AddressDescriptor {
        paddress: Some(pa),
        vaddress: va,
        memattrs,
        fault: FaultRecord::NoFault(),
        s1assured: false,
        s2fs1mro: false,
        mecid: 0,
    }
}

/// Build an address descriptor whose fault record indicates an error; no
/// output address is produced.
pub fn CreateFaultyAddressDescriptor(va: u64, fault: FaultRecord) -> (r: AddressDescriptor)
    ensures
        r == spec_faulty_descriptor(va, fault),
        r.fault == fault,
        r.paddress is None,
        r.vaddress == va,
        !fault.is_clear() ==> r.output_consistent(),
{
    AddressDescriptor {
        vaddress: va,
        fault: fault,
        memattrs: crate::shared_memory::NormalNCMemAttr(),
        paddress: None,
        s1assured: false,
        s2fs1mro: false,
        mecid: 0,
    }
}

/// Translation granule sizes.
#[derive(Default, Debug, Copy, Clone, PartialEq, Eq, Structural)]
pub enum TGx {
    #[default]
    TGx_4KB,
    TGx_16KB,
    TGx_64KB,
}

/// The address size, in bits, of a granule.
pub open spec fn spec_granule_bits(tgx: TGx) -> int {
    match tgx {
        TGx::TGx_4KB => 12,
        TGx::TGx_16KB => 14,
        TGx::TGx_64KB => 16,
    }
}

/// Retrieve the address size, in bits, of a granule.
pub fn TGxGranuleBits(tgx: TGx) -> (r: u64)
    ensures
        r == spec_granule_bits(tgx),
        12 <= r <= 16,
{
    match tgx {
        TGx::TGx_4KB => 12,
        TGx::TGx_16KB => 14,
        TGx::TGx_64KB => 16,
    }
}

/// log2 of the size of one table descriptor: 16 bytes under the 128-bit
/// descriptor format, 8 bytes otherwise.
pub open spec fn spec_desc_size_log2(d128: u64) -> int {
    if d128 == 1 {
        4
    } else {
        3
    }
}

/// Index bits resolved by one level of lookup.
pub open spec fn spec_stride(d128: u64, tgx: TGx) -> int {
    spec_granule_bits(tgx) - spec_desc_size_log2(d128)
}

/// The number of input-address bits a leaf at `level` maps directly to the
/// output address.
pub open spec fn spec_translation_size(d128: u64, tgx: TGx, level: u64) -> int {
    spec_granule_bits(tgx) + (FINAL_LEVEL - level) * spec_stride(d128, tgx)
}

/// Compute the number of bits directly mapped from the input address to the
/// output address by a leaf at `level`.
pub fn TranslationSize(d128: u64, tgx: TGx, level: u64) -> (r: u64)
    requires
        level <= FINAL_LEVEL,
    ensures
        r == spec_translation_size(d128, tgx, level),
        12 <= r <= 55,
{
    let granulebits: u64 = TGxGranuleBits(tgx);
    let descsizelog2: u64 = if d128 == 1 {
        4
    } else {
        3
    };
    let diff: u64 = FINAL_LEVEL - level;
    let stride: u64 = granulebits - descsizelog2;
    assert(diff * stride <= 39) by (nonlinear_arith)
        requires
            diff <= 3,
            stride <= 13,
    ;
    let blockbits: u64 = diff * stride;
    granulebits + blockbits
}

/// The number of entries, log 2, marking a contiguous output range for a
/// leaf at `level`.
pub open spec fn spec_contiguous_size(d128: u64, tgx: TGx, level: u64) -> int {
    if d128 == 1 {
        match tgx {
            TGx::TGx_4KB => if level == 1 {
                2
            } else {
                4
            },
            TGx::TGx_16KB => if level == 1 {
                2
            } else if level == 2 {
                4
            } else {
                6
            },
            TGx::TGx_64KB => if level == 2 {
                6
            } else {
                4
            },
        }
    } else {
        match tgx {
            TGx::TGx_4KB => 4,
            TGx::TGx_16KB => if level == 2 {
                5
            } else {
                7
            },
            TGx::TGx_64KB => 5,
        }
    }
}

/// Return the number of entries, log 2, marking a contiguous output range.
pub fn ContiguousSize(d128: u64, tgx: TGx, level: u64) -> (r: u64)
    ensures
        r == spec_contiguous_size(d128, tgx, level),
        2 <= r <= 7,
{
    if d128 == 1 {
        match tgx {
            TGx::TGx_4KB => if level == 1 {
                2
            } else {
                4
            },
            TGx::TGx_16KB => if level == 1 {
                2
            } else if level == 2 {
                4
            } else {
                6
            },
            TGx::TGx_64KB => if level == 2 {
                6
            } else {
                4
            },
        }
    } else {
        match tgx {
            TGx::TGx_4KB => 4,
            TGx::TGx_16KB => if level == 2 {
                5
            } else {
                7
            },
            TGx::TGx_64KB => 5,
        }
    }
}

/// Stage-1 translation-walk parameters: the per-regime register fields that
/// steer a stage-1 walk, held as plain values. One-bit register fields are
/// 0 or 1 in a `u64`; multi-bit fields hold their raw value.
///
/// Some fields are carried for completeness but not read by this model: the
/// permission-indirection controls (`pie` gates only the dirty-state update;
/// `pir` and `pire0` are never decoded — the permission check implements the
/// direct AP/XN model), the attribute-indirection fields (`aie`, `mair2`),
/// the register shareability field `sh` (leaves carry their own), `ds`,
/// `nv1`, `cmow`, `pnch`, `haft`, `mtx`, `skl`, `fng`, `irgn`, `orgn`,
/// `sif` and `amec`. The tag-downgrade choice for tagged Normal memory under
/// a disabled data cache is fixed to "no downgrade" rather than exposed as a
/// configuration knob.
#[derive(Default, Debug, Copy, Clone, PartialEq, Eq, Structural)]
pub struct S1TTWParams {
    /// Hardware access-flag update enable
    pub ha: u64,
    /// Hardware dirty-state update enable
    pub hd: u64,
    /// Top-byte-ignore
    pub tbi: u64,
    /// Top-byte-ignore applies to data accesses only
    pub tbid: u64,
    /// Non-fault-disable gate for EL0 SVE/transactional accesses
    pub nfd: u64,
    /// EL0 access disable for this address half-range
    pub e0pd: u64,
    /// 128-bit descriptor format enable
    pub d128: u64,
    /// Attribute-index extension enable
    pub aie: u64,
    /// 52-bit output-address enable
    pub ds: u64,
    /// Output (physical) address size selector, bits(3)
    pub ps: u64,
    /// Input-address size field: the input range spans `64 - txsz` bits
    pub txsz: u64,
    /// Enhanced privileged-access-never enable
    pub epan: u64,
    /// Stage-1-disabled default-cacheable control
    pub dct: u64,
    /// Nested-virtualization control
    pub nv1: u64,
    /// Cache-maintenance-op write gate
    pub cmow: u64,
    /// Protected-contiguous-hint control
    pub pnch: u64,
    /// Disable the contiguous hint
    pub disch: u64,
    /// Hardware-managed access flag for tables
    pub haft: u64,
    /// Memory-tagging extension control
    pub mtx: u64,
    /// Skip-level field, bits(2)
    pub skl: u64,
    /// Permission-indirection enable
    pub pie: u64,
    /// Memory-encryption-context enable
    pub emec: u64,
    /// Alternate memory-encryption-context select
    pub amec: u64,
    /// Fine-grained non-global control
    pub fng: u64,
    /// Inner-cacheability register field, bits(2)
    pub irgn: u64,
    /// Outer-cacheability register field, bits(2)
    pub orgn: u64,
    /// Shareability register field, bits(2)
    pub sh: u64,
    /// Hierarchical-permission disable
    pub hpd: u64,
    /// Translation-table endianness: 1 for big-endian descriptors
    pub ee: u64,
    /// Write-implies-execute-never
    pub wxn: u64,
    /// No-trap of load/store-multiple to Device memory
    pub ntlsmd: u64,
    /// Stage-1-disabled default-cacheable (HCR DC)
    pub dc: u64,
    /// Secure instruction fetch
    pub sif: u64,
    /// Extended memory-attribute indirection register
    pub mair2: u64,
    /// Permission-indirection register
    pub pir: u64,
    /// Unprivileged permission-indirection register
    pub pire0: u64,
    /// Translation granule
    pub tgx: TGx,
    /// Memory-attribute indirection register
    pub mair: u64,
    /// IMPLEMENTATION DEFINED: an out-of-bounds `txsz` faults instead of
    /// being clamped
    pub txszfault: bool,
}

impl S1TTWParams {
    /// The fields hold values their architected widths allow.
    pub open spec fn wf(self) -> bool {
        self.txsz < 64 && self.ps <= 7
    }

    pub fn get_ha(&self) -> (r: u64)
        ensures
            r == self.ha,
    {
        self.ha
    }

    pub fn get_hd(&self) -> (r: u64)
        ensures
            r == self.hd,
    {
        self.hd
    }

    pub fn get_tbi(&self) -> (r: u64)
        ensures
            r == self.tbi,
    {
        self.tbi
    }

    pub fn get_tbid(&self) -> (r: u64)
        ensures
            r == self.tbid,
    {
        self.tbid
    }

    pub fn get_nfd(&self) -> (r: u64)
        ensures
            r == self.nfd,
    {
        self.nfd
    }

    pub fn get_e0pd(&self) -> (r: u64)
        ensures
            r == self.e0pd,
    {
        self.e0pd
    }

    pub fn get_d128(&self) -> (r: u64)
        ensures
            r == self.d128,
    {
        self.d128
    }

    pub fn get_aie(&self) -> (r: u64)
        ensures
            r == self.aie,
    {
        self.aie
    }

    pub fn get_ds(&self) -> (r: u64)
        ensures
            r == self.ds,
    {
        self.ds
    }

    pub fn get_ps(&self) -> (r: u64)
        ensures
            r == self.ps,
    {
        self.ps
    }

    pub fn get_txsz(&self) -> (r: u64)
        ensures
            r == self.txsz,
    {
        self.txsz
    }

    pub fn get_epan(&self) -> (r: u64)
        ensures
            r == self.epan,
    {
        self.epan
    }

    pub fn get_dct(&self) -> (r: u64)
        ensures
            r == self.dct,
    {
        self.dct
    }

    pub fn get_nv1(&self) -> (r: u64)
        ensures
            r == self.nv1,
    {
        self.nv1
    }

    pub fn get_cmow(&self) -> (r: u64)
        ensures
            r == self.cmow,
    {
        self.cmow
    }

    pub fn get_pnch(&self) -> (r: u64)
        ensures
            r == self.pnch,
    {
        self.pnch
    }

    pub fn get_disch(&self) -> (r: u64)
        ensures
            r == self.disch,
    {
        self.disch
    }

    pub fn get_haft(&self) -> (r: u64)
        ensures
            r == self.haft,
    {
        self.haft
    }

    pub fn get_mtx(&self) -> (r: u64)
        ensures
            r == self.mtx,
    {
        self.mtx
    }

    pub fn get_skl(&self) -> (r: u64)
        ensures
            r == self.skl,
    {
        self.skl
    }

    pub fn get_pie(&self) -> (r: u64)
        ensures
            r == self.pie,
    {
        self.pie
    }

    pub fn get_emec(&self) -> (r: u64)
        ensures
            r == self.emec,
    {
        self.emec
    }

    pub fn get_amec(&self) -> (r: u64)
        ensures
            r == self.amec,
    {
        self.amec
    }

    pub fn get_fng(&self) -> (r: u64)
        ensures
            r == self.fng,
    {
        self.fng
    }

    pub fn get_irgn(&self) -> (r: u64)
        ensures
            r == self.irgn,
    {
        self.irgn
    }

    pub fn get_orgn(&self) -> (r: u64)
        ensures
            r == self.orgn,
    {
        self.orgn
    }

    pub fn get_sh(&self) -> (r: u64)
        ensures
            r == self.sh,
    {
        self.sh
    }

    pub fn get_hpd(&self) -> (r: u64)
        ensures
            r == self.hpd,
    {
        self.hpd
    }

    pub fn get_ee(&self) -> (r: u64)
        ensures
            r == self.ee,
    {
        self.ee
    }

    pub fn get_wxn(&self) -> (r: u64)
        ensures
            r == self.wxn,
    {
        self.wxn
    }

    pub fn get_ntlsmd(&self) -> (r: u64)
        ensures
            r == self.ntlsmd,
    {
        self.ntlsmd
    }

    pub fn get_dc(&self) -> (r: u64)
        ensures
            r == self.dc,
    {
        self.dc
    }

    pub fn get_sif(&self) -> (r: u64)
        ensures
            r == self.sif,
    {
        self.sif
    }

    /// The translation granule of this configuration.
    pub fn get_tgx(&self) -> (r: TGx)
        ensures
            r == self.tgx,
    {
        self.tgx
    }
}

/// Stage-2 translation-walk parameters, held as plain values like
/// `S1TTWParams`.
///
/// Some fields are carried for completeness but not read by this model: the
/// start-level fields (`sl0`, `sl2`, `skl`) — the walk derives its start
/// level from the input-range size, so the architected invalid- and
/// inconsistent-start-level faults have no trigger here — the secure-walk
/// controls (`sw`, `nsw`, `sa`, `nsa`), the top-level and assured-only
/// controls (`tl0`, `tl1`, `assuredonly`), and `cmow`, `haft`, `s2pir`,
/// `irgn`, `orgn`, `sh`.
#[derive(Default, Debug, Copy, Clone, PartialEq, Eq, Structural)]
pub struct S2TTWParams {
    /// Hardware access-flag update enable
    pub ha: u64,
    /// Hardware dirty-state update enable
    pub hd: u64,
    /// Start-level extension bit
    pub sl2: u64,
    /// 52-bit output-address enable
    pub ds: u64,
    /// 128-bit descriptor format enable
    pub d128: u64,
    /// Secure-stage-2 walk control
    pub sw: u64,
    /// Non-secure-stage-2 walk control
    pub nsw: u64,
    /// Secure-stage-2 output control
    pub sa: u64,
    /// Non-secure-stage-2 output control
    pub nsa: u64,
    /// Output (physical) address size selector, bits(3)
    pub ps: u64,
    /// Input-address size field: the input range spans `64 - txsz` bits
    pub txsz: u64,
    /// Forced write-back combining of stage-1 and stage-2 attributes
    pub fwb: u64,
    /// Cache-maintenance-op write gate
    pub cmow: u64,
    /// Skip-level field, bits(2)
    pub skl: u64,
    /// Stage-2 permission-indirection enable
    pub s2pie: u64,
    /// Stage-2 permission-indirection register
    pub s2pir: u64,
    /// Top-level flag for the lower address range
    pub tl0: u64,
    /// Top-level flag for the upper address range
    pub tl1: u64,
    /// Assured-only attribute enable
    pub assuredonly: u64,
    /// Hardware-managed access flag for tables
    pub haft: u64,
    /// Memory-encryption-context enable
    pub emec: u64,
    /// Hardware-dirty-state tracking-structure enable
    pub hdbss: u64,
    /// Start-level field, bits(2)
    pub sl0: u64,
    /// Inner-cacheability register field, bits(2)
    pub irgn: u64,
    /// Outer-cacheability register field, bits(2)
    pub orgn: u64,
    /// Shareability register field, bits(2)
    pub sh: u64,
    /// Translation-table endianness: 1 for big-endian descriptors
    pub ee: u64,
    /// Protected-table-walk control: stage-1 walks to Device memory fault
    pub ptw: u64,
    /// Stage-2 translation enable
    pub vm: u64,
    /// Translation granule
    pub tgx: TGx,
    /// IMPLEMENTATION DEFINED: an out-of-bounds `txsz` faults instead of
    /// being clamped
    pub txszfault: bool,
}

impl S2TTWParams {
    /// The fields hold values their architected widths allow.
    pub open spec fn wf(self) -> bool {
        self.txsz < 64 && self.ps <= 7
    }
}

/// Short-descriptor format type, AArch32 walks only.
#[derive(Debug, Copy, Clone, PartialEq, Eq, Structural)]
pub enum SDFType {
    SDFType_Table,
    SDFType_Invalid,
    SDFType_Supersection,
    SDFType_Section,
    SDFType_LargePage,
    SDFType_SmallPage,
}

/// Translation-table walk state: the summary of one walk, produced by the
/// walk and consumed immediately by the caller.
#[derive(Debug, Copy, Clone, PartialEq, Eq, Structural)]
pub struct TTWState {
    pub istable: bool,
    pub level: u64,
    pub baseaddress: FullAddress,
    /// The leaf carries the contiguous hint
    pub contiguous: bool,
    /// Stage 1 assured-translation property
    pub s1assured: bool,
    /// Stage 2 assured-only attribute
    pub s2assuredonly: bool,
    /// Stage 1 disable-contiguous-hint state
    pub disch: bool,
    /// Not-global mapping
    pub nG: bool,
    /// Guarded-page attribute
    pub guardedpage: bool,
    /// AArch32 short-descriptor walk only
    pub sdftype: SDFType,
    /// AArch32 short-descriptor walk only, bits(4)
    pub domain: u8,
    pub memattrs: MemoryAttributes,
    pub permissions: Permissions,
}

impl TTWState {
    /// A walk result a leaf can produce: a level no deeper than the final
    /// one and a well-formed output base.
    pub open spec fn wf(self) -> bool {
        self.level <= FINAL_LEVEL && self.baseaddress.wf()
    }
}

/// The bitwise mask that keeps the low `msb` bits of a 64-bit value.
pub open spec fn spec_low_mask(msb: u64) -> u64 {
    (((1u64 << msb) - 1) as u64)
}

/// The output address a leaf walk state maps an input address to: input bits
/// below the mapped range pass through, higher bits come from the walk's
/// recorded base address.
pub open spec fn spec_stage_oa_address(ia: u64, base: u64, msb: u64) -> u64 {
    (base & !spec_low_mask(msb)) | (ia & spec_low_mask(msb))
}

/// Given the final walk state (a page or block descriptor), map the
/// untranslated input-address bits into the output address.
pub fn StageOA(ia: u64, d128: u64, tgx: TGx, walkstate: TTWState) -> (r: FullAddress)
    requires
        walkstate.wf(),
    ensures
        r.paspace == walkstate.baseaddress.paspace,
        r.address == spec_stage_oa_address(
            ia,
            walkstate.baseaddress.address,
            (spec_translation_size(d128, tgx, walkstate.level) + if walkstate.contiguous {
                spec_contiguous_size(d128, tgx, walkstate.level)
            } else {
                0
            }) as u64,
        ),
{
    let tsize: u64 = TranslationSize(d128, tgx, walkstate.level);
    let csize: u64 = if walkstate.contiguous {
        ContiguousSize(d128, tgx, walkstate.level)
    } else {
        0
    };
    let ia_msb: u64 = tsize + csize;
    proof {
        crate::bitops::lemma_shl1_pos(ia_msb);
    }
    let mask: u64 = (1u64 << ia_msb) - 1;
    FullAddress {
        paspace: walkstate.baseaddress.paspace,
        address: (walkstate.baseaddress.address & !mask) | (ia & mask),
    }
}

/// Determine whether the virtual address to be translated lies in the lower
/// or the upper half-range: bit 55 selects.
pub open spec fn spec_va_range(va: u64) -> VARange {
    if va & 0x0080_0000_0000_0000u64 == 0 {
        VARange::VARange_LOWER
    } else {
        VARange::VARange_UPPER
    }
}

/// Determine if the virtual address lies in the lower or upper range.
pub fn AArch64GetVARange(va: u64) -> (r: VARange)
    ensures
        r == spec_va_range(va),
{
    if va & 0x0080_0000_0000_0000u64 == 0 {
        VARange::VARange_LOWER
    } else {
        VARange::VARange_UPPER
    }
}

/// Whether a translation regime serves EL0 as well as a higher level.
pub open spec fn spec_has_unprivileged(regime: Regime) -> bool {
    regime == Regime::Regime_EL20 || regime == Regime::Regime_EL30 || regime == Regime::Regime_EL10
}

/// Returns whether a translation regime serves EL0 as well as a higher EL.
pub fn HasUnprivileged(regime: Regime) -> (r: bool)
    ensures
        r == spec_has_unprivileged(regime),
{
    regime == Regime::Regime_EL20 || regime == Regime::Regime_EL30 || regime == Regime::Regime_EL10
}

/// The regime that serves a target exception level in this model: EL3 and
/// EL2 have single-level regimes unless EL2 is host (E2H); EL1 and EL0 use
/// EL1&0, except EL0 under a host EL2, which uses EL2&0.
pub open spec fn spec_translation_regime(state: ArchState, el: PrivilegeLevel) -> Regime {
    match el {
        PrivilegeLevel::PL3 => Regime::Regime_EL3,
        PrivilegeLevel::PL2 => if crate::sysregs::spec_el_is_in_host(state, PrivilegeLevel::PL2) {
            Regime::Regime_EL20
        } else {
            Regime::Regime_EL2
        },
        PrivilegeLevel::PL1 => Regime::Regime_EL10,
        PrivilegeLevel::PL0 => if crate::sysregs::spec_el_is_in_host(state, PrivilegeLevel::PL0) {
            Regime::Regime_EL20
        } else {
            Regime::Regime_EL10
        },
    }
}

/// Select the translation regime given the target exception level and the
/// processor state.
pub fn TranslationRegime(state: &ArchState, el: PrivilegeLevel) -> (r: Regime)
    ensures
        r == spec_translation_regime(*state, el),
{
    match el {
        PrivilegeLevel::PL3 => Regime::Regime_EL3,
        PrivilegeLevel::PL2 => if crate::sysregs::ELIsInHost(state, PrivilegeLevel::PL2) {
            Regime::Regime_EL20
        } else {
            Regime::Regime_EL2
        },
        PrivilegeLevel::PL1 => Regime::Regime_EL10,
        PrivilegeLevel::PL0 => if crate::sysregs::ELIsInHost(state, PrivilegeLevel::PL0) {
            Regime::Regime_EL20
        } else {
            Regime::Regime_EL10
        },
    }
}

} // verus!
