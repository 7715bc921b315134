//! Unit tests of the data model and the pure helper functions.
use libarmv8::physmem::BigEndianReverse64;
use libarmv8::shared::{EL2Enabled, HaveEL, ProcState, SecurityState};
use libarmv8::shared_mec::{AArch64S1OutputMECID_128, AArch64S1OutputMECID_64, AArch64S2OutputMECID,
    DEFAULT_MECID};
use libarmv8::shared_memory::{AccessType, CreateAccDescTTEUpdate, EffectiveShareability, Fault,
    FaultRecord, FullAddress, MemAtomicOp, MemAttr, MemAttrHints, MemHint, MemTagType, MemType,
    MemoryAttributes, DeviceType, NewAccDesc, NormalNCMemAttr, PASpace, Shareability, VARange};
use libarmv8::shared_mpam::{GenMPAMCurEL, PARTIDSpaceType};
use libarmv8::shared_translation::Regime;
use libarmv8::shared_memory::Permissions;
use libarmv8::shared_vmsa::{AArch64GetVARange, ContiguousSize, PrivilegeLevel, S1TTWParams,
    S2TTWParams, SDFType, StageOA, TGx, TGxGranuleBits, TTWState, TranslationRegime,
    TranslationSize};
use libarmv8::sysregs::{ArchState, Feature, IsFeatureImplemented, SctlrFields};
use libarmv8::walk::{AArch64MaxTxSZ, AArch64S1MinTxSZ, AArch64S1TxSZFaults,
    AArch64VAIsOutOfRange, DecodePASize, S1DecodeMemAttrs};

fn default_s1_params() -> S1TTWParams {
    S1TTWParams {
        txsz: 16,
        ps: 5,
        mair: 0xFF,
        tgx: TGx::TGx_4KB,
        ..Default::default()
    }
}

fn plain_state() -> ArchState {
    ArchState {
        pstate: ProcState { bits: 1 << 17 },
        feat_aa64el2: false,
        feat_aa64el3: false,
        feat_sel2: false,
        feat_rme: false,
        feat_tme: true,
        feat_sve: true,
        secure_only: false,
        scr_ns: true,
        scr_nse: false,
        scr_eel2: false,
        hcr_e2h: false,
        hcr_tge: false,
        hcr_dc: false,
        hcr_id: false,
        hcr_cd: false,
        sctlr_el1: SctlrFields { m: true, i: true, c: true },
        sctlr_el2: SctlrFields { m: false, i: true, c: true },
        sctlr_el3: SctlrFields { m: false, i: true, c: true },
        s1_lower: default_s1_params(),
        s1_upper: default_s1_params(),
        ttb_lower: FullAddress { paspace: PASpace::PAS_NonSecure, address: 0x10_0000 },
        ttb_upper: FullAddress { paspace: PASpace::PAS_NonSecure, address: 0x10_0000 },
        s2_params: S2TTWParams::default(),
        s2_ttb: FullAddress { paspace: PASpace::PAS_NonSecure, address: 0x10_8000 },
        mecid_p0: 0,
        mecid_p1: 0,
        mecid_a0: 0,
        mecid_a1: 0,
        mecid_rl_a: 0,
        vmecid_p: 0,
        vmecid_a: 0,
    }
}

#[test]
fn pstate_exception_level_decodes() {
    let p0 = ProcState { bits: 0 };
    assert_eq!(p0.get_EL(), PrivilegeLevel::PL0);
    let p1 = ProcState { bits: 1 << 17 };
    assert_eq!(p1.get_EL(), PrivilegeLevel::PL1);
    let p2 = ProcState { bits: 2 << 17 };
    assert_eq!(p2.get_EL(), PrivilegeLevel::PL2);
    let p3 = ProcState { bits: 3 << 17 };
    assert_eq!(p3.get_EL(), PrivilegeLevel::PL3);
}

#[test]
fn have_el_follows_features() {
    let mut state = plain_state();
    assert!(HaveEL(&state, PrivilegeLevel::PL0));
    assert!(HaveEL(&state, PrivilegeLevel::PL1));
    assert!(!HaveEL(&state, PrivilegeLevel::PL2));
    state.feat_aa64el2 = true;
    assert!(HaveEL(&state, PrivilegeLevel::PL2));
    assert!(!HaveEL(&state, PrivilegeLevel::PL3));
}

#[test]
fn el2_enabled_without_el3() {
    let mut state = plain_state();
    assert!(!EL2Enabled(&state));
    state.feat_aa64el2 = true;
    assert!(EL2Enabled(&state));
    // EL3 exists, the machine is Non-secure: EL2 stays enabled.
    state.feat_aa64el3 = true;
    assert!(EL2Enabled(&state));
    // In Secure state, EL2 is enabled only with the Secure-EL2 enable.
    state.scr_ns = false;
    assert!(!EL2Enabled(&state));
    state.feat_sel2 = true;
    state.scr_eel2 = true;
    assert!(EL2Enabled(&state));
}

#[test]
fn translation_regime_per_level() {
    let mut state = plain_state();
    assert_eq!(TranslationRegime(&state, PrivilegeLevel::PL3), Regime::Regime_EL3);
    assert_eq!(TranslationRegime(&state, PrivilegeLevel::PL2), Regime::Regime_EL2);
    assert_eq!(TranslationRegime(&state, PrivilegeLevel::PL1), Regime::Regime_EL10);
    assert_eq!(TranslationRegime(&state, PrivilegeLevel::PL0), Regime::Regime_EL10);
    // A host EL2 claims EL2&0 for EL2, and for EL0 only under TGE.
    state.feat_aa64el2 = true;
    state.hcr_e2h = true;
    assert_eq!(TranslationRegime(&state, PrivilegeLevel::PL2), Regime::Regime_EL20);
    assert_eq!(TranslationRegime(&state, PrivilegeLevel::PL0), Regime::Regime_EL10);
    state.hcr_tge = true;
    assert_eq!(TranslationRegime(&state, PrivilegeLevel::PL0), Regime::Regime_EL20);
}

#[test]
fn granule_bits_per_granule() {
    assert_eq!(TGxGranuleBits(TGx::TGx_4KB), 12);
    assert_eq!(TGxGranuleBits(TGx::TGx_16KB), 14);
    assert_eq!(TGxGranuleBits(TGx::TGx_64KB), 16);
}

#[test]
fn translation_size_values() {
    // 64-bit descriptors: each level above the final adds 9 bits at 4KB.
    assert_eq!(TranslationSize(0, TGx::TGx_4KB, 3), 12);
    assert_eq!(TranslationSize(0, TGx::TGx_4KB, 2), 21);
    assert_eq!(TranslationSize(0, TGx::TGx_4KB, 1), 30);
    assert_eq!(TranslationSize(0, TGx::TGx_4KB, 0), 39);
    assert_eq!(TranslationSize(0, TGx::TGx_16KB, 3), 14);
    assert_eq!(TranslationSize(0, TGx::TGx_64KB, 2), 29);
    // 128-bit descriptors halve the entries per granule.
    assert_eq!(TranslationSize(1, TGx::TGx_4KB, 2), 20);
}

#[test]
fn contiguous_size_values() {
    assert_eq!(ContiguousSize(0, TGx::TGx_4KB, 3), 4);
    assert_eq!(ContiguousSize(0, TGx::TGx_16KB, 2), 5);
    assert_eq!(ContiguousSize(0, TGx::TGx_16KB, 3), 7);
    assert_eq!(ContiguousSize(0, TGx::TGx_64KB, 3), 5);
    assert_eq!(ContiguousSize(1, TGx::TGx_4KB, 1), 2);
    assert_eq!(ContiguousSize(1, TGx::TGx_4KB, 3), 4);
    assert_eq!(ContiguousSize(1, TGx::TGx_16KB, 2), 4);
    assert_eq!(ContiguousSize(1, TGx::TGx_64KB, 2), 6);
}

#[test]
fn stage_oa_splices_address_bits() {
    let walkstate = TTWState {
        istable: false,
        level: 3,
        baseaddress: FullAddress { paspace: PASpace::PAS_NonSecure, address: 0x4000_0000 },
        contiguous: false,
        s1assured: false,
        s2assuredonly: false,
        disch: false,
        nG: false,
        guardedpage: false,
        sdftype: SDFType::SDFType_Invalid,
        domain: 0,
        memattrs: NormalNCMemAttr(),
        permissions: Permissions::default(),
    };
    let oa = StageOA(0x8000_0000_1234, 0, TGx::TGx_4KB, walkstate);
    assert_eq!(oa.address, 0x4000_0234);
    assert_eq!(oa.paspace, PASpace::PAS_NonSecure);
}

#[test]
fn va_range_splits_at_bit_55() {
    assert_eq!(AArch64GetVARange(0), VARange::VARange_LOWER);
    assert_eq!(AArch64GetVARange(0x0000_8000_0000_1000), VARange::VARange_LOWER);
    assert_eq!(AArch64GetVARange(0xFFFF_FFFF_FFFF_0000), VARange::VARange_UPPER);
    assert_eq!(AArch64GetVARange(1 << 55), VARange::VARange_UPPER);
}

fn normal_wb(shareability: Shareability) -> MemoryAttributes {
    let wb = MemAttrHints {
        attrs: MemAttr::MemAttr_WB,
        hints: MemHint::MemHint_RWA,
        transient: false,
    };
    MemoryAttributes {
        memtype: MemType::MemType_Normal,
        device: DeviceType::DeviceType_GRE,
        inner: wb,
        outer: wb,
        shareability,
        tags: MemTagType::MemTag_Untagged,
        notagaccess: false,
        xs: false,
    }
}

#[test]
fn effective_shareability_forces_osh_on_device() {
    let mut attrs = normal_wb(Shareability::Shareability_NSH);
    attrs.memtype = MemType::MemType_Device;
    assert_eq!(EffectiveShareability(attrs), Shareability::Shareability_OSH);
    attrs.shareability = Shareability::Shareability_ISH;
    assert_eq!(EffectiveShareability(attrs), Shareability::Shareability_OSH);
}

#[test]
fn effective_shareability_forces_osh_on_fully_non_cacheable() {
    let mut attrs = NormalNCMemAttr();
    attrs.shareability = Shareability::Shareability_NSH;
    assert_eq!(EffectiveShareability(attrs), Shareability::Shareability_OSH);
}

#[test]
fn effective_shareability_keeps_stored_value_otherwise() {
    let attrs = normal_wb(Shareability::Shareability_ISH);
    assert_eq!(EffectiveShareability(attrs), Shareability::Shareability_ISH);
}

#[test]
fn normal_nc_memattr_shape() {
    let attrs = NormalNCMemAttr();
    assert_eq!(attrs.memtype, MemType::MemType_Normal);
    assert_eq!(attrs.inner.attrs, MemAttr::MemAttr_NC);
    assert_eq!(attrs.outer.attrs, MemAttr::MemAttr_NC);
    assert_eq!(attrs.shareability, Shareability::Shareability_OSH);
    assert_eq!(attrs.tags, MemTagType::MemTag_Untagged);
    assert!(!attrs.xs);
}

#[test]
fn new_accdesc_uses_current_context() {
    let state = plain_state();
    let accdesc = NewAccDesc(&state, AccessType::AccessType_GPR);
    assert_eq!(accdesc.acctype, AccessType::AccessType_GPR);
    assert_eq!(accdesc.el, PrivilegeLevel::PL1);
    assert_eq!(accdesc.ss, SecurityState::SS_NonSecure);
    assert!(!accdesc.read);
    assert!(!accdesc.write);
    assert!(!accdesc.exclusive);
}

#[test]
fn tte_update_accdesc_is_atomic_walk_access() {
    let state = plain_state();
    let mut base = NewAccDesc(&state, AccessType::AccessType_GPR);
    base.read = true;
    let upd = CreateAccDescTTEUpdate(&state, base);
    assert_eq!(upd.acctype, AccessType::AccessType_TTW);
    assert!(upd.atomicop);
    assert_eq!(upd.modop, MemAtomicOp::MemAtomicOp_CAS);
    assert!(upd.read);
    assert!(upd.write);
    assert_eq!(upd.el, base.el);
    assert_eq!(upd.ss, base.ss);
}

#[test]
fn fault_records_start_clear() {
    let f = FaultRecord::NoFault();
    assert_eq!(f.statuscode, Fault::Fault_None);
    assert!(!f.secondstage);
    assert!(!f.s2fs1walk);
    let state = plain_state();
    let mut accdesc = NewAccDesc(&state, AccessType::AccessType_GPR);
    accdesc.write = true;
    let g = FaultRecord::NoFaultForAccess(accdesc);
    assert_eq!(g.statuscode, Fault::Fault_None);
    assert!(g.write);
    assert_eq!(g.acctype, AccessType::AccessType_GPR);
}

#[test]
fn mpam_defaults_to_current_space() {
    let state = plain_state();
    let info = GenMPAMCurEL(&state, AccessType::AccessType_GPR);
    assert_eq!(info.mpam_sp, PARTIDSpaceType::PIDSpace_NonSecure);
    assert_eq!(info.partid.0, 0);
    assert_eq!(info.pmg.0, 0);
}

#[test]
fn features_follow_state() {
    let state = plain_state();
    assert!(IsFeatureImplemented(&state, Feature::FEAT_TME));
    assert!(IsFeatureImplemented(&state, Feature::FEAT_SVE));
    assert!(!IsFeatureImplemented(&state, Feature::FEAT_AA64EL2));
}

#[test]
fn txsz_bounds_and_faults() {
    assert_eq!(AArch64S1MinTxSZ(Regime::Regime_EL10, 0, 0, TGx::TGx_4KB), 16);
    assert_eq!(AArch64S1MinTxSZ(Regime::Regime_EL10, 0, 0, TGx::TGx_16KB), 12);
    assert_eq!(AArch64S1MinTxSZ(Regime::Regime_EL10, 1, 0, TGx::TGx_4KB), 20);
    assert_eq!(AArch64MaxTxSZ(TGx::TGx_4KB), 39);
    let mut wp = default_s1_params();
    wp.txsz = 10;
    assert!(!AArch64S1TxSZFaults(Regime::Regime_EL10, wp));
    wp.txszfault = true;
    assert!(AArch64S1TxSZFaults(Regime::Regime_EL10, wp));
    wp.txsz = 45;
    assert!(AArch64S1TxSZFaults(Regime::Regime_EL10, wp));
    wp.txsz = 24;
    assert!(!AArch64S1TxSZFaults(Regime::Regime_EL10, wp));
}

#[test]
fn va_range_check_lower_and_upper() {
    let wp = default_s1_params();
    // Lower half: bits above the 48-bit range must be zero.
    assert!(!AArch64VAIsOutOfRange(
        0x0000_8000_0000_1000,
        AccessType::AccessType_GPR,
        Regime::Regime_EL10,
        wp
    ));
    assert!(AArch64VAIsOutOfRange(
        0x0001_0000_0000_0000,
        AccessType::AccessType_GPR,
        Regime::Regime_EL10,
        wp
    ));
    // Upper half: the checked bits must all be one.
    assert!(!AArch64VAIsOutOfRange(
        0xFFFF_FFFF_FFFF_F000,
        AccessType::AccessType_GPR,
        Regime::Regime_EL10,
        wp
    ));
    assert!(AArch64VAIsOutOfRange(
        0xFF00_8000_0000_1000,
        AccessType::AccessType_GPR,
        Regime::Regime_EL10,
        wp
    ));
    // Top-byte-ignore admits a tagged pointer.
    let mut tbi = wp;
    tbi.tbi = 1;
    assert!(!AArch64VAIsOutOfRange(
        0x5A00_8000_0000_1000,
        AccessType::AccessType_GPR,
        Regime::Regime_EL10,
        tbi
    ));
}

#[test]
fn pa_size_decodes() {
    assert_eq!(DecodePASize(0), 32);
    assert_eq!(DecodePASize(5), 48);
    assert_eq!(DecodePASize(6), 52);
}

#[test]
fn mair_byte_decodes() {
    // Attribute byte 0xFF: Normal memory, write-back read/write-allocate.
    let attrs = S1DecodeMemAttrs(0, 0xFF, 3);
    assert_eq!(attrs.memtype, MemType::MemType_Normal);
    assert_eq!(attrs.inner.attrs, MemAttr::MemAttr_WB);
    assert_eq!(attrs.inner.hints, MemHint::MemHint_RWA);
    assert_eq!(attrs.shareability, Shareability::Shareability_ISH);
    assert!(!attrs.xs);
    // Attribute byte 0x00 in the second slot: Device nGnRnE.
    let device = S1DecodeMemAttrs(1, 0x00FF, 0);
    assert_eq!(device.memtype, MemType::MemType_Device);
    assert_eq!(device.device, DeviceType::DeviceType_nGnRnE);
    assert!(device.xs);
    // Device GRE: byte 0x0C.
    let gre = S1DecodeMemAttrs(0, 0x0C, 0);
    assert_eq!(gre.device, DeviceType::DeviceType_GRE);
    // Non-cacheable: byte 0x44.
    let nc = S1DecodeMemAttrs(0, 0x44, 2);
    assert_eq!(nc.inner.attrs, MemAttr::MemAttr_NC);
    assert_eq!(nc.outer.attrs, MemAttr::MemAttr_NC);
}

#[test]
fn s1_getters_read_fields() {
    let mut wp = default_s1_params();
    wp.ha = 1;
    wp.hd = 1;
    wp.e0pd = 1;
    wp.ee = 1;
    assert_eq!(wp.get_ha(), 1);
    assert_eq!(wp.get_hd(), 1);
    assert_eq!(wp.get_e0pd(), 1);
    assert_eq!(wp.get_ee(), 1);
    assert_eq!(wp.get_txsz(), 16);
    assert_eq!(wp.get_tgx(), TGx::TGx_4KB);
    assert_eq!(wp.get_d128(), 0);
}

#[test]
fn byte_reverse_is_involutive() {
    let x = 0x0123_4567_89AB_CDEFu64;
    assert_eq!(BigEndianReverse64(x), 0xEFCD_AB89_6745_2301);
    assert_eq!(BigEndianReverse64(BigEndianReverse64(x)), x);
}

#[test]
fn s1_mecid_defaults_and_realm_selection() {
    let mut state = plain_state();
    state.vmecid_p = 0x1234;
    state.mecid_p0 = 0x77;
    let mut wp = default_s1_params();
    // Tagging disabled: always the default id.
    assert_eq!(
        AArch64S1OutputMECID_128(
            &state,
            wp,
            Regime::Regime_EL10,
            VARange::VARange_LOWER,
            PASpace::PAS_Realm,
            0
        ),
        DEFAULT_MECID
    );
    wp.emec = 1;
    // Non-Realm output space: still the default id.
    assert_eq!(
        AArch64S1OutputMECID_128(
            &state,
            wp,
            Regime::Regime_EL10,
            VARange::VARange_LOWER,
            PASpace::PAS_NonSecure,
            0
        ),
        DEFAULT_MECID
    );
    // Realm output through EL1&0: the virtual primary id.
    assert_eq!(
        AArch64S1OutputMECID_128(
            &state,
            wp,
            Regime::Regime_EL10,
            VARange::VARange_LOWER,
            PASpace::PAS_Realm,
            0
        ),
        0x1234
    );
    // EL2 regime with the alternate bit clear: the primary id.
    assert_eq!(
        AArch64S1OutputMECID_64(
            &state,
            wp,
            Regime::Regime_EL2,
            VARange::VARange_LOWER,
            PASpace::PAS_Realm,
            0
        ),
        0x77
    );
    // The 64-bit descriptor's alternate bit selects the alternate id.
    state.mecid_a0 = 0x88;
    assert_eq!(
        AArch64S1OutputMECID_64(
            &state,
            wp,
            Regime::Regime_EL2,
            VARange::VARange_LOWER,
            PASpace::PAS_Realm,
            1u64 << 63
        ),
        0x88
    );
}

#[test]
fn s2_mecid_selects_virtual_ids() {
    let mut state = plain_state();
    state.vmecid_p = 0x11;
    state.vmecid_a = 0x22;
    let mut wp = S2TTWParams::default();
    assert_eq!(AArch64S2OutputMECID(&state, wp, PASpace::PAS_Realm, 0), DEFAULT_MECID);
    wp.emec = 1;
    assert_eq!(AArch64S2OutputMECID(&state, wp, PASpace::PAS_Realm, 0), 0x11);
    assert_eq!(
        AArch64S2OutputMECID(&state, wp, PASpace::PAS_Realm, 1u128 << 63),
        0x22
    );
    assert_eq!(AArch64S2OutputMECID(&state, wp, PASpace::PAS_NonSecure, 0), DEFAULT_MECID);
}
