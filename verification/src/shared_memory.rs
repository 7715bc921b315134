//! Fault records, access descriptors and memory-attribute types shared by the
//! stage-1 and stage-2 translation engines.
use vstd::prelude::*;

verus! {

use crate::shared::SecurityState;
use crate::shared_mpam::MPAMinfo;
use crate::shared_vmsa::PrivilegeLevel;

/// The closed fault-kind taxonomy. A translation never panics or throws: every
/// failure is one of these status codes carried in a `FaultRecord`.
#[derive(Debug, Copy, Clone, PartialEq, Eq, Structural)]
pub enum Fault {
    Fault_None,
    Fault_AccessFlag,
    Fault_Alignment,
    Fault_Background,
    Fault_Domain,
    Fault_Permission,
    Fault_Translation,
    Fault_AddressSize,
    Fault_SyncExternal,
    Fault_SyncExternalOnWalk,
    Fault_SyncParity,
    Fault_SyncParityOnWalk,
    Fault_AsyncParity,
    Fault_AsyncExternal,
    Fault_Debug,
    Fault_TLBConflict,
    Fault_BranchTarget,
    Fault_HWUpdateAccessFlag,
    Fault_Lockdown,
    Fault_Exclusive,
    Fault_ICacheMaint,
}

/// Fault accumulator threaded through every translation step. It starts clear
/// and, once `statuscode` is set, later steps short-circuit and forward it.
#[derive(Debug, Copy, Clone, PartialEq, Eq, Structural)]
pub struct FaultRecord {
    /// Fault status
    pub statuscode: Fault,
    /// Type of access that faulted
    pub acctype: AccessType,
    /// Intermediate physical address of the faulting access (stage 2 only)
    pub ipaddress: FullAddress,
    /// The fault arose on a stage-2 translation of a stage-1 walk access
    pub s2fs1walk: bool,
    /// TRUE for a write, FALSE for a read
    pub write: bool,
    /// Lookup level at which translation, access-flag and permission faults arose
    pub level: u64,
    /// IMPLEMENTATION DEFINED syndrome bit for External aborts
    pub extflag: bool,
    /// The fault arose during stage-2 translation
    pub secondstage: bool,
    /// Domain number, AArch32 only
    pub domain: u8,
    /// RAS error type
    pub errortype: u8,
    /// Debug method of entry, AArch32 only
    pub debugmoe: u8,
}

/// The clear fault record `NoFault` returns, for use in contracts.
pub open spec fn spec_no_fault_record() -> FaultRecord {
    FaultRecord {
        statuscode: Fault::Fault_None,
        acctype: AccessType::AccessType_GPR,
        ipaddress: FullAddress { paspace: PASpace::PAS_NonSecure, address: 0 },
        s2fs1walk: false,
        write: false,
        level: 0,
        extflag: false,
        secondstage: false,
        domain: 0,
        errortype: 0,
        debugmoe: 0,
    }
}

/// The clear fault record `NoFaultForAccess` builds for an access, for use
/// in contracts.
pub open spec fn spec_no_fault_for_access(accdesc: AccessDescriptor) -> FaultRecord {
    FaultRecord {
        acctype: accdesc.acctype,
        write: !accdesc.read && accdesc.write,
        ..spec_no_fault_record()
    }
}

/// The same fault record with its status code replaced.
pub open spec fn spec_fault_with_status(fault: FaultRecord, status: Fault) -> FaultRecord {
    FaultRecord { statuscode: status, ..fault }
}

impl FaultRecord {
    /// Whether this record still reports no fault.
    pub open spec fn is_clear(self) -> bool {
        self.statuscode == Fault::Fault_None
    }

    /// Return a clear fault record indicating no fault has occurred.
    pub fn NoFault() -> (r: FaultRecord)
        ensures
            r == spec_no_fault_record(),
            r.is_clear(),
            r.statuscode == Fault::Fault_None,
            !r.secondstage,
            !r.s2fs1walk,
            !r.write,
            r.level == 0,
    {
        FaultRecord {
            statuscode: Fault::Fault_None,
            acctype: AccessType::AccessType_GPR,
            ipaddress: FullAddress { paspace: PASpace::PAS_NonSecure, address: 0 },
            s2fs1walk: false,
            write: false,
            level: 0,
            extflag: false,
            secondstage: false,
            domain: 0,
            errortype: 0,
            debugmoe: 0,
        }
    }

    /// Return a clear fault record for a specific access: the access type and
    /// write intent are recorded so that a later fault reports them.
    pub fn NoFaultForAccess(accdesc: AccessDescriptor) -> (r: FaultRecord)
        ensures
            r == spec_no_fault_for_access(accdesc),
            r.is_clear(),
            r.statuscode == Fault::Fault_None,
            r.acctype == accdesc.acctype,
            r.write == (!accdesc.read && accdesc.write),
            !r.secondstage,
            !r.s2fs1walk,
            r.level == 0,
    {
        FaultRecord {
            statuscode: Fault::Fault_None,
            acctype: accdesc.acctype,
            ipaddress: FullAddress { paspace: PASpace::PAS_NonSecure, address: 0 },
            s2fs1walk: false,
            write: !accdesc.read && accdesc.write,
            level: 0,
            extflag: false,
            secondstage: false,
            domain: 0,
            errortype: 0,
            debugmoe: 0,
        }
    }
}

/// The kind of memory access or translation invocation.
#[derive(Debug, Copy, Clone, PartialEq, Eq, Structural)]
pub enum AccessType {
    /// Instruction fetch
    AccessType_IFETCH,
    /// Software load/store to a general-purpose register
    AccessType_GPR,
    /// Software ASIMD extension load/store instructions
    AccessType_ASIMD,
    /// Software SVE load/store instructions
    AccessType_SVE,
    /// Software SME load/store instructions
    AccessType_SME,
    /// Sysop IC
    AccessType_IC,
    /// Sysop DC (not DC {Z,G,GZ}VA)
    AccessType_DC,
    /// Sysop DC {Z,G,GZ}VA
    AccessType_DCZero,
    /// Sysop AT
    AccessType_AT,
    /// NV2 memory redirected access
    AccessType_NV2,
    /// Statistical Profiling buffer access
    AccessType_SPE,
    /// Guarded Control Stack access
    AccessType_GCS,
    /// Trace Buffer access
    AccessType_TRBE,
    /// Granule Protection Table walk
    AccessType_GPTW,
    /// Translation table walk
    AccessType_TTW,
}

/// Immutable per-access request: what kind of access is being made, by which
/// privilege level and security state, and with which architectural flags.
/// Created once by the caller before translation and never mutated by it.
#[derive(Debug, Copy, Clone, PartialEq, Eq, Structural)]
pub struct AccessDescriptor {
    pub acctype: AccessType,
    /// Acting exception level for the access
    pub el: PrivilegeLevel,
    /// Acting security state for the access
    pub ss: SecurityState,
    /// Acquire with sequential consistency
    pub acqsc: bool,
    /// Acquire with processor consistency
    pub acqpc: bool,
    /// Release with sequential consistency
    pub relsc: bool,
    /// Acquire/release with limited ordering
    pub limitedordered: bool,
    /// Access has exclusive semantics
    pub exclusive: bool,
    /// Atomic read-modify-write access
    pub atomicop: bool,
    /// The modification operation in the `atomicop` access
    pub modop: MemAtomicOp,
    /// Hints the access is non-temporal
    pub nontemporal: bool,
    /// Read from memory, or only require read permissions
    pub read: bool,
    /// Write to memory, or only require write permissions
    pub write: bool,
    /// DC/IC: cache operation
    pub cacheop: CacheOp,
    /// DC/IC: scope of the cache operation
    pub opscope: CacheOpScope,
    /// DC/IC: type of the target cache
    pub cachetype: CacheType,
    /// The access is subject to PSTATE.PAN
    pub pan: bool,
    /// Access is part of a transaction
    pub transactional: bool,
    /// SVE: non-faulting load
    pub nonfault: bool,
    /// SVE: first-fault load
    pub firstfault: bool,
    /// SVE: first-fault load for the first active element
    pub first: bool,
    /// SVE: contiguous load/store, not gather/scatter
    pub contiguous: bool,
    /// SME: access made while in streaming SVE mode
    pub streamingsve: bool,
    /// Single-copy 64-byte accelerator load/store
    pub ls64: bool,
    /// Memory operation (CPY/SET) access
    pub mops: bool,
    /// Read-check-write access
    pub rcw: bool,
    /// Read-check-write software access
    pub rcws: bool,
    /// Translation table walk access for the top-level table address
    pub toplevel: bool,
    /// The TTBR supplying the top-level table
    pub varange: VARange,
    /// A32 load/store multiple data access
    pub a32lsmd: bool,
    /// Access is tag-checked
    pub tagchecked: bool,
    /// Access targets the allocation-tag bits
    pub tagaccess: bool,
    /// Stores of allocation tags to Device memory are CONSTRAINED UNPREDICTABLE
    pub devstoreunpred: bool,
    /// Access represents a load/store pair access
    pub ispair: bool,
    /// Highest address is accessed first
    pub highestaddressfirst: bool,
    /// Memory-partitioning information stamped on the access
    pub mpam: MPAMinfo,
}

/// A physical (or intermediate-physical) address: a 52-bit address together
/// with the physical-address space it belongs to.
#[derive(Debug, Copy, Clone, PartialEq, Eq, Structural)]
pub struct FullAddress {
    pub paspace: PASpace,
    /// bits(52)
    pub address: u64,
}

impl FullAddress {
    /// The address fits in its architected 52 bits.
    pub open spec fn wf(self) -> bool {
        self.address < 0x10_0000_0000_0000u64
    }
}

/// Cacheability attributes and allocation hints for one (inner or outer)
/// cache level.
#[derive(Debug, Copy, Clone, PartialEq, Eq, Structural)]
pub struct MemAttrHints {
    /// Cacheability
    pub attrs: MemAttr,
    /// Allocation hints
    pub hints: MemHint,
    pub transient: bool,
}

#[derive(Debug, Copy, Clone, PartialEq, Eq, Structural)]
pub enum MemType {
    MemType_Normal,
    MemType_Device,
}

/// Raw permission bits recorded by a table walk: stage-1 hierarchical and
/// leaf bit groups, and stage-2 bit groups.
#[derive(Default, Debug, Copy, Clone, PartialEq, Eq, Structural)]
pub struct Permissions {
    /// Stage 1 hierarchical access permissions, bits(2)
    pub ap_table: u8,
    /// Stage 1 hierarchical execute-never for single-EL regimes, bit
    pub xn_table: u8,
    /// Stage 1 hierarchical privileged execute-never, bit
    pub pxn_table: u8,
    /// Stage 1 hierarchical unprivileged execute-never, bit
    pub uxn_table: u8,
    /// Stage 1 access permissions AP[2:1] held in bits 2:1
    pub ap: u8,
    /// Stage 1 execute-never for single-EL regimes, bit
    pub xn: u8,
    /// Stage 1 unprivileged execute-never, bit
    pub uxn: u8,
    /// Stage 1 privileged execute-never, bit
    pub pxn: u8,
    /// Stage 2 access permissions, bits(2): bit 0 read, bit 1 write
    pub s2ap: u8,
    /// Stage 2 extended execute-never, bit
    pub s2xnx: u8,
    /// Stage 2 execute-never, bit
    pub s2xn: u8,
}

/// Status returned by the physical-memory collaborator.
#[derive(Debug, Copy, Clone, PartialEq, Eq, Structural)]
pub struct PhysMemRetStatus {
    /// Fault status
    pub statuscode: Fault,
    /// IMPLEMENTATION DEFINED syndrome bit for External aborts
    pub extflag: u8,
    /// Optional error state returned on a physical memory access, bits(2)
    pub errortype: u8,
    /// Status of a 64-byte store, bits(64)
    pub store64bstatus: u64,
    /// Type of access that faulted
    pub acctype: AccessType,
}

#[derive(Debug, Copy, Clone, PartialEq, Eq, Structural)]
pub enum PrefetchHint {
    Prefetch_READ,
    Prefetch_WRITE,
    Prefetch_EXEC,
}

#[derive(Debug, Copy, Clone, PartialEq, Eq, Structural)]
pub enum Shareability {
    Shareability_NSH,
    Shareability_ISH,
    Shareability_OSH,
}

/// The effective shareability of a mapping: Outer Shareable for Device
/// memory and for Normal memory Non-cacheable at both levels, the stored
/// shareability otherwise.
pub open spec fn spec_effective_shareability(memattrs: MemoryAttributes) -> Shareability {
    if memattrs.memtype == MemType::MemType_Device || (memattrs.inner.attrs == MemAttr::MemAttr_NC
        && memattrs.outer.attrs == MemAttr::MemAttr_NC) {
        Shareability::Shareability_OSH
    } else {
        memattrs.shareability
    }
}

/// Force Outer Shareable on Device memory and on Normal memory that is
/// Non-cacheable at both the inner and the outer level; any other memory
/// keeps its stored shareability.
pub fn EffectiveShareability(memattrs: MemoryAttributes) -> (r: Shareability)
    ensures
        r == spec_effective_shareability(memattrs),
        (memattrs.memtype == MemType::MemType_Device || (memattrs.inner.attrs
            == MemAttr::MemAttr_NC && memattrs.outer.attrs == MemAttr::MemAttr_NC)) ==> r
            == Shareability::Shareability_OSH,
        !(memattrs.memtype == MemType::MemType_Device || (memattrs.inner.attrs
            == MemAttr::MemAttr_NC && memattrs.outer.attrs == MemAttr::MemAttr_NC)) ==> r
            == memattrs.shareability,
{
    if memattrs.memtype == MemType::MemType_Device || (memattrs.inner.attrs
        == MemAttr::MemAttr_NC && memattrs.outer.attrs == MemAttr::MemAttr_NC) {
        return Shareability::Shareability_OSH;
    }
    memattrs.shareability
}

/// Virtual-address half-ranges: addresses with bit 55 clear belong to the
/// lower range, those with bit 55 set to the upper range.
#[derive(Default, Debug, Copy, Clone, PartialEq, Eq, Structural)]
pub enum VARange {
    #[default]
    VARange_LOWER,
    VARange_UPPER,
}

#[derive(Default, Debug, Copy, Clone, PartialEq, Eq, Structural)]
pub enum DeviceType {
    #[default]
    DeviceType_GRE,
    DeviceType_nGRE,
    DeviceType_nGnRE,
    DeviceType_nGnRnE,
}

/// Atomic data-processing instruction types.
#[derive(Default, Debug, Copy, Clone, PartialEq, Eq, Structural)]
pub enum MemAtomicOp {
    #[default]
    MemAtomicOp_GCSSS1,
    MemAtomicOp_ADD,
    MemAtomicOp_BIC,
    MemAtomicOp_EOR,
    MemAtomicOp_ORR,
    MemAtomicOp_SMAX,
    MemAtomicOp_SMIN,
    MemAtomicOp_UMAX,
    MemAtomicOp_UMIN,
    MemAtomicOp_SWP,
    MemAtomicOp_CAS,
}

#[derive(Default, Debug, Copy, Clone, PartialEq, Eq, Structural)]
pub enum CacheOp {
    #[default]
    CacheOp_Clean,
    CacheOp_Invalidate,
    CacheOp_CleanInvalidate,
}

#[derive(Default, Debug, Copy, Clone, PartialEq, Eq, Structural)]
pub enum CacheOpScope {
    #[default]
    CacheOpScope_SetWay,
    CacheOpScope_PoU,
    CacheOpScope_PoC,
    CacheOpScope_PoE,
    CacheOpScope_PoP,
    CacheOpScope_PoDP,
    CacheOpScope_PoPA,
    CacheOpScope_ALLU,
    CacheOpScope_ALLUIS,
}

#[derive(Default, Debug, Copy, Clone, PartialEq, Eq, Structural)]
pub enum CacheType {
    #[default]
    CacheType_Data,
    CacheType_Tag,
    CacheType_Data_Tag,
    CacheType_Instruction,
}

#[derive(Debug, Copy, Clone, PartialEq, Eq, Structural)]
pub enum CachePASpace {
    CPAS_NonSecure,
    /// DC *SW / IC IALLU* in Root state: match entries from any PA space
    CPAS_Any,
    /// DC *SW / IC IALLU* in Realm state: match Realm or Non-secure entries
    CPAS_RealmNonSecure,
    CPAS_Realm,
    CPAS_Root,
    /// DC *SW / IC IALLU* in Secure state: match Secure or Non-secure entries
    CPAS_SecureNonSecure,
    CPAS_Secure,
}

/// Memory access instruction types.
#[derive(Debug, Copy, Clone, PartialEq, Eq, Structural)]
pub enum MemOp {
    MemOp_LOAD,
    MemOp_STORE,
    MemOp_PREFETCH,
}

/// Memory tag type.
#[derive(Debug, Copy, Clone, PartialEq, Eq, Structural)]
pub enum MemTagType {
    MemTag_Untagged,
    MemTag_AllocationTagged,
    MemTag_CanonicallyTagged,
}

/// Memory attributes of one mapping: memory type, cacheability and allocation
/// hints, shareability, tagging and the XS attribute.
#[derive(Debug, Copy, Clone, PartialEq, Eq, Structural)]
pub struct MemoryAttributes {
    pub memtype: MemType,
    /// For Device memory types
    pub device: DeviceType,
    /// Inner hints and attributes
    pub inner: MemAttrHints,
    /// Outer hints and attributes
    pub outer: MemAttrHints,
    /// Shareability attribute
    pub shareability: Shareability,
    /// MTE tag type for this memory
    pub tags: MemTagType,
    /// Allocation-tag access permission
    pub notagaccess: bool,
    /// XS attribute bit
    pub xs: bool,
}

/// Cacheability, bits(2).
#[derive(Default, Debug, Copy, Clone, PartialEq, Eq, Structural)]
pub enum MemAttr {
    #[default]
    /// Non-cacheable
    MemAttr_NC,
    /// Write-through
    MemAttr_WT,
    /// Write-back
    MemAttr_WB,
}

/// Allocation hints, bits(2).
#[derive(Default, Debug, Copy, Clone, PartialEq, Eq, Structural)]
pub enum MemHint {
    #[default]
    /// No read-allocate, no write-allocate
    MemHint_No,
    /// No read-allocate, write-allocate
    MemHint_WA,
    /// Read-allocate, no write-allocate
    MemHint_RA,
    /// Read-allocate, write-allocate
    MemHint_RWA,
}

/// Physical address spaces.
#[derive(Debug, Copy, Clone, PartialEq, Eq, Structural)]
pub enum PASpace {
    PAS_NonSecure,
    PAS_Secure,
    PAS_Root,
    PAS_Realm,
}

/// The canonical Normal Non-cacheable memory attributes: Normal memory,
/// Non-cacheable at both levels, Outer Shareable, untagged, XS clear.
pub fn NormalNCMemAttr() -> (r: MemoryAttributes)
    ensures
        r.memtype == MemType::MemType_Normal,
        r.inner.attrs == MemAttr::MemAttr_NC,
        r.outer.attrs == MemAttr::MemAttr_NC,
        r.shareability == Shareability::Shareability_OSH,
        r.tags == MemTagType::MemTag_Untagged,
        !r.notagaccess,
        !r.xs,
        r == spec_normal_nc_memattrs(),
{
    let non_cacheable: MemAttrHints = MemAttrHints {
        attrs: MemAttr::MemAttr_NC,
        hints: MemHint::MemHint_No,
        transient: false,
    };
    MemoryAttributes {
        memtype: MemType::MemType_Normal,
        device: DeviceType::DeviceType_GRE,
        outer: non_cacheable,
        inner: non_cacheable,
        shareability: Shareability::Shareability_OSH,
        tags: MemTagType::MemTag_Untagged,
        notagaccess: false,
        xs: false,
    }
}

/// The access descriptor `NewAccDesc` builds: the requested access type at
/// the current exception level and security state, every optional flag
/// clear, and the default partition tags of the current security state.
pub open spec fn spec_new_accdesc(state: crate::sysregs::ArchState, acctype: AccessType)
    -> AccessDescriptor {
    AccessDescriptor {
        acctype: acctype,
        el: state.pstate.spec_el(),
        ss: crate::sysregs::spec_current_security_state(state),
        acqsc: false,
        acqpc: false,
        relsc: false,
        limitedordered: false,
        exclusive: false,
        rcw: false,
        rcws: false,
        atomicop: false,
        modop: MemAtomicOp::MemAtomicOp_GCSSS1,
        nontemporal: false,
        read: false,
        write: false,
        cacheop: CacheOp::CacheOp_Clean,
        opscope: CacheOpScope::CacheOpScope_SetWay,
        cachetype: CacheType::CacheType_Data,
        pan: false,
        transactional: false,
        nonfault: false,
        firstfault: false,
        first: false,
        contiguous: false,
        streamingsve: false,
        ls64: false,
        mops: false,
        toplevel: false,
        varange: VARange::VARange_LOWER,
        a32lsmd: false,
        tagchecked: false,
        tagaccess: false,
        devstoreunpred: false,
        ispair: false,
        highestaddressfirst: false,
        mpam: crate::shared_mpam::spec_default_mpam_info(
            crate::sysregs::spec_current_security_state(state),
        ),
    }
}

/// Create a new access descriptor with initialised fields: the given access
/// type at the current exception level and security state, every flag clear.
pub fn NewAccDesc(state: &crate::sysregs::ArchState, acctype: AccessType) -> (r: AccessDescriptor)
    ensures
        r == spec_new_accdesc(*state, acctype),
{
    let el = state.pstate.get_EL();
    let ss = crate::sysregs::CurrentSecurityState(state);
    AccessDescriptor {
        acctype: acctype,
        el: el,
        ss: ss,
        acqsc: false,
        acqpc: false,
        relsc: false,
        limitedordered: false,
        exclusive: false,
        rcw: false,
        rcws: false,
        atomicop: false,
        modop: MemAtomicOp::MemAtomicOp_GCSSS1,
        nontemporal: false,
        read: false,
        write: false,
        cacheop: CacheOp::CacheOp_Clean,
        opscope: CacheOpScope::CacheOpScope_SetWay,
        cachetype: CacheType::CacheType_Data,
        pan: false,
        transactional: false,
        nonfault: false,
        firstfault: false,
        first: false,
        contiguous: false,
        streamingsve: false,
        ls64: false,
        mops: false,
        toplevel: false,
        varange: VARange::VARange_LOWER,
        a32lsmd: false,
        tagchecked: false,
        tagaccess: false,
        devstoreunpred: false,
        ispair: false,
        highestaddressfirst: false,
        mpam: crate::shared_mpam::GenMPAMCurEL(state, acctype),
    }
}

/// The access descriptor a hardware translation-table-entry update uses: a
/// translation-table-walk access with atomic compare-and-swap semantics at
/// the requesting access's exception level, security state and partition
/// tags.
pub open spec fn spec_tte_update_accdesc(
    state: crate::sysregs::ArchState,
    accdesc_in: AccessDescriptor,
) -> AccessDescriptor {
    AccessDescriptor {
        el: accdesc_in.el,
        ss: accdesc_in.ss,
        atomicop: true,
        modop: MemAtomicOp::MemAtomicOp_CAS,
        read: true,
        write: true,
        mpam: accdesc_in.mpam,
        ..spec_new_accdesc(state, AccessType::AccessType_TTW)
    }
}

/// Access descriptor for a hardware translation-table-entry update.
pub fn CreateAccDescTTEUpdate(state: &crate::sysregs::ArchState, accdesc_in: AccessDescriptor)
    -> (r: AccessDescriptor)
    ensures
        r == spec_tte_update_accdesc(*state, accdesc_in),
{
    let mut accdesc = NewAccDesc(state, AccessType::AccessType_TTW);
    accdesc.el = accdesc_in.el;
    accdesc.ss = accdesc_in.ss;
    accdesc.atomicop = true;
    accdesc.modop = MemAtomicOp::MemAtomicOp_CAS;
    accdesc.read = true;
    accdesc.write = true;
    accdesc.mpam = accdesc_in.mpam;
    accdesc
}

/// The value `NormalNCMemAttr` returns, for use in contracts.
pub open spec fn spec_normal_nc_memattrs() -> MemoryAttributes {
    MemoryAttributes {
        memtype: MemType::MemType_Normal,
        device: DeviceType::DeviceType_GRE,
        outer: MemAttrHints {
            attrs: MemAttr::MemAttr_NC,
            hints: MemHint::MemHint_No,
            transient: false,
        },
        inner: MemAttrHints {
            attrs: MemAttr::MemAttr_NC,
            hints: MemHint::MemHint_No,
            transient: false,
        },
        shareability: Shareability::Shareability_OSH,
        tags: MemTagType::MemTag_Untagged,
        notagaccess: false,
        xs: false,
    }
}

} // verus!
