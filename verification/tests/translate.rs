//! End-to-end translation scenarios: stage-1 walks, the hardware-update
//! compare-and-swap convergence loop, the stage-1-disabled path, the fault
//! catalogue, and two-stage translation.
use libarmv8::physmem::{Hdbss, MemWord, PhysMem};
use libarmv8::shared::ProcState;
use libarmv8::shared_memory::{AccessDescriptor, AccessType, DeviceType, Fault, FaultRecord,
    FullAddress, MemAttr, MemAttrHints, MemHint, MemTagType, MemType, MemoryAttributes,
    NewAccDesc, NormalNCMemAttr, PASpace, Shareability};
use libarmv8::shared_translation::Regime;
use libarmv8::shared_vmsa::{PrivilegeLevel, S1TTWParams, S2TTWParams, TGx, TranslationRegime};
use libarmv8::sysregs::{ArchState, CfiState, SctlrFields};
use libarmv8::translation64::{AArch64FullTranslate, AArch64S1Translate, S2CombineS1MemAttrs};

const RAM_BASE: u64 = 0x10_0000;
const L0_OFF: u64 = 0x0000;
const L1_OFF: u64 = 0x1000;
const L2_OFF: u64 = 0x2000;
const L3_OFF: u64 = 0x3000;
const S2_L0_OFF: u64 = 0x8000;
const S2_L1_OFF: u64 = 0x9000;
const S2_L2_OFF: u64 = 0xA000;
const S2_L3_OFF: u64 = 0xB000;

/// The scenario virtual address: level indexes 256, 0, 0, 1 at 4KB.
const VA: u64 = 0x0000_8000_0000_1000;
const PAGE_PA: u64 = 0x4000_0000;
const S2_PAGE_PA: u64 = 0x8000_0000;

fn make_mem() -> PhysMem {
    PhysMem { base: RAM_BASE, words: vec![0u64; 8192], racing: vec![] }
}

fn poke(mem: &mut PhysMem, addr: u64, value: u64) {
    let idx = ((addr - mem.base) / 8) as usize;
    mem.words[idx] = value;
}

fn peek(mem: &PhysMem, addr: u64) -> u64 {
    let idx = ((addr - mem.base) / 8) as usize;
    mem.words[idx]
}

fn table(next: u64) -> u64 {
    next | 3
}

/// A level-3 page descriptor: valid page, access flag set, attribute slot 0
/// (Normal write-back), inner shareable, privileged read/write.
fn page_leaf(pa: u64) -> u64 {
    pa | 3 | (1 << 10) | (3 << 8)
}

/// Install the four-level stage-1 mapping for `VA`.
fn install_s1_tables(mem: &mut PhysMem, leaf: u64) {
    poke(mem, RAM_BASE + L0_OFF + 8 * 256, table(RAM_BASE + L1_OFF));
    poke(mem, RAM_BASE + L1_OFF, table(RAM_BASE + L2_OFF));
    poke(mem, RAM_BASE + L2_OFF, table(RAM_BASE + L3_OFF));
    poke(mem, RAM_BASE + L3_OFF + 8, leaf);
}

/// Install the four-level stage-2 mapping for the intermediate address
/// `PAGE_PA` under a 40-bit stage-2 input range.
fn install_s2_tables(mem: &mut PhysMem, leaf: u64) {
    poke(mem, RAM_BASE + S2_L0_OFF, table(RAM_BASE + S2_L1_OFF));
    poke(mem, RAM_BASE + S2_L1_OFF + 8, table(RAM_BASE + S2_L2_OFF));
    poke(mem, RAM_BASE + S2_L2_OFF, table(RAM_BASE + S2_L3_OFF));
    poke(mem, RAM_BASE + S2_L3_OFF, leaf);
}

/// A stage-2 page descriptor: valid page, access flag set, read/write
/// stage-2 permissions, Normal write-back attributes, inner shareable.
fn s2_page_leaf(pa: u64) -> u64 {
    pa | 3 | (1 << 10) | (3 << 6) | (0xF << 2) | (3 << 8)
}

fn s1_params() -> S1TTWParams {
    S1TTWParams {
        txsz: 16,
        ps: 5,
        mair: 0x00FF,
        tgx: TGx::TGx_4KB,
        ..Default::default()
    }
}

fn el1_state() -> ArchState {
    ArchState {
        pstate: ProcState { bits: 1 << 17 },
        feat_aa64el2: false,
        feat_aa64el3: false,
        feat_sel2: false,
        feat_rme: false,
        feat_tme: true,
        feat_sve: true,
        secure_only: false,
        scr_ns: true,
        scr_nse: false,
        scr_eel2: false,
        hcr_e2h: false,
        hcr_tge: false,
        hcr_dc: false,
        hcr_id: false,
        hcr_cd: false,
        sctlr_el1: SctlrFields { m: true, i: true, c: true },
        sctlr_el2: SctlrFields { m: false, i: true, c: true },
        sctlr_el3: SctlrFields { m: false, i: true, c: true },
        s1_lower: s1_params(),
        s1_upper: s1_params(),
        ttb_lower: FullAddress { paspace: PASpace::PAS_NonSecure, address: RAM_BASE + L0_OFF },
        ttb_upper: FullAddress { paspace: PASpace::PAS_NonSecure, address: RAM_BASE + L0_OFF },
        s2_params: S2TTWParams::default(),
        s2_ttb: FullAddress { paspace: PASpace::PAS_NonSecure, address: RAM_BASE + S2_L0_OFF },
        mecid_p0: 0,
        mecid_p1: 0,
        mecid_a0: 0,
        mecid_a1: 0,
        mecid_rl_a: 0,
        vmecid_p: 0,
        vmecid_a: 0,
    }
}

/// An EL1&0 state with an enabled EL2 and stage-2 translation over a 40-bit
/// input range.
fn el2_state() -> ArchState {
    let mut state = el1_state();
    state.feat_aa64el2 = true;
    state.s2_params = S2TTWParams {
        vm: 1,
        txsz: 24,
        ps: 5,
        tgx: TGx::TGx_4KB,
        ..Default::default()
    };
    state
}

fn read_access(state: &ArchState) -> AccessDescriptor {
    let mut accdesc = NewAccDesc(state, AccessType::AccessType_GPR);
    accdesc.read = true;
    accdesc
}

fn write_access(state: &ArchState) -> AccessDescriptor {
    let mut accdesc = NewAccDesc(state, AccessType::AccessType_GPR);
    accdesc.read = true;
    accdesc.write = true;
    accdesc
}

fn fetch_access(state: &ArchState) -> AccessDescriptor {
    let mut accdesc = NewAccDesc(state, AccessType::AccessType_IFETCH);
    accdesc.acctype = AccessType::AccessType_IFETCH;
    accdesc
}

fn fresh_hdbss() -> Hdbss {
    Hdbss { entries: vec![], capacity: 16, abort: false }
}

fn fresh_cfi() -> CfiState {
    CfiState { in_guarded_page: false }
}

#[test]
fn scenario_valid_leaf_translation() {
    // EL1&0 regime, EL2 disabled, stage 1 enabled, a valid 4KB level-3 leaf
    // with a read-permitting AP and the access flag already set.
    let state = el1_state();
    let mut mem = make_mem();
    install_s1_tables(&mut mem, page_leaf(PAGE_PA));
    let accdesc = read_access(&state);
    let result = AArch64FullTranslate(&state, &mut mem, &mut fresh_hdbss(), &mut fresh_cfi(), VA,
        accdesc, true);
    assert_eq!(result.fault.statuscode, Fault::Fault_None);
    assert_eq!(
        result.paddress,
        Some(FullAddress { paspace: PASpace::PAS_NonSecure, address: PAGE_PA })
    );
    assert_eq!(result.vaddress, VA);
    // Encryption tagging is disabled, so the context id is the default.
    assert_eq!(result.mecid, 0);
    assert_eq!(result.memattrs.memtype, MemType::MemType_Normal);
    assert_eq!(result.memattrs.inner.attrs, MemAttr::MemAttr_WB);
    assert_eq!(result.memattrs.shareability, Shareability::Shareability_ISH);
}

#[test]
fn stage1_result_returned_verbatim_without_stage2() {
    // With EL2 disabled the orchestrator returns the stage-1 result as is.
    let state = el1_state();
    let mut mem_full = make_mem();
    install_s1_tables(&mut mem_full, page_leaf(PAGE_PA));
    let mut mem_s1 = mem_full.clone();
    let accdesc = read_access(&state);
    let full = AArch64FullTranslate(&state, &mut mem_full, &mut fresh_hdbss(), &mut fresh_cfi(),
        VA, accdesc, true);
    let regime = TranslationRegime(&state, accdesc.el);
    assert_eq!(regime, Regime::Regime_EL10);
    let fault = FaultRecord::NoFaultForAccess(accdesc);
    let (s1fault, ipa) = AArch64S1Translate(&state, &mut mem_s1, &mut fresh_hdbss(),
        &mut fresh_cfi(), fault, regime, VA, true, accdesc);
    assert_eq!(s1fault.statuscode, Fault::Fault_None);
    assert_eq!(full, ipa);
}

#[test]
fn stage2_disabled_by_vm_returns_stage1_result() {
    // EL2 is enabled but stage-2 translation is off: the stage-1 result
    // passes through unchanged.
    let mut state = el2_state();
    state.s2_params.vm = 0;
    let mut mem = make_mem();
    install_s1_tables(&mut mem, page_leaf(PAGE_PA));
    let mut mem_s1 = mem.clone();
    let accdesc = read_access(&state);
    let full = AArch64FullTranslate(&state, &mut mem, &mut fresh_hdbss(), &mut fresh_cfi(), VA,
        accdesc, true);
    let fault = FaultRecord::NoFaultForAccess(accdesc);
    let (s1fault, ipa) = AArch64S1Translate(&state, &mut mem_s1, &mut fresh_hdbss(),
        &mut fresh_cfi(), fault, Regime::Regime_EL10, VA, true, accdesc);
    assert_eq!(s1fault.statuscode, Fault::Fault_None);
    assert_eq!(full, ipa);
    assert_eq!(full.paddress.unwrap().address, PAGE_PA);
}

#[test]
fn scenario_txsz_fault_flagged_configuration() {
    // The same address with the input-size field below the regime minimum
    // and the configuration flagged to fault on it.
    let mut state = el1_state();
    state.s1_lower.txsz = 10;
    state.s1_lower.txszfault = true;
    let mut mem = make_mem();
    install_s1_tables(&mut mem, page_leaf(PAGE_PA));
    let accdesc = read_access(&state);
    let result = AArch64FullTranslate(&state, &mut mem, &mut fresh_hdbss(), &mut fresh_cfi(), VA,
        accdesc, true);
    assert_eq!(result.fault.statuscode, Fault::Fault_Translation);
    assert_eq!(result.fault.level, 0);
    assert_eq!(result.paddress, None);
    assert_eq!(result.vaddress, VA);
}

#[test]
fn txsz_below_minimum_clamps_to_minimum_for_range_checks() {
    // Unflagged, a field below the minimum is replaced by the minimum for
    // the range check: an address inside the raw 50-bit range but outside
    // the clamped 48-bit range is rejected.
    let mut state = el1_state();
    state.s1_lower.txsz = 14;
    let mut mem = make_mem();
    install_s1_tables(&mut mem, page_leaf(PAGE_PA));
    let accdesc = read_access(&state);
    let result = AArch64FullTranslate(&state, &mut mem, &mut fresh_hdbss(), &mut fresh_cfi(),
        0x0002_0000_0000_1000, accdesc, true);
    assert_eq!(result.fault.statuscode, Fault::Fault_Translation);
    assert_eq!(result.fault.level, 0);
    // The scenario address itself still lies inside the clamped range.
    let mut mem2 = make_mem();
    install_s1_tables(&mut mem2, page_leaf(PAGE_PA));
    let ok = AArch64FullTranslate(&state, &mut mem2, &mut fresh_hdbss(), &mut fresh_cfi(), VA,
        accdesc, true);
    assert_eq!(ok.fault.statuscode, Fault::Fault_None);
    assert_eq!(ok.paddress.unwrap().address, PAGE_PA);
}

#[test]
fn txsz_above_maximum_clamps_to_maximum_for_range_checks() {
    // Unflagged, a field above the maximum is replaced by the maximum: an
    // address outside the raw 19-bit range but inside the clamped 25-bit
    // range still translates.
    let mut state = el1_state();
    state.s1_lower.txsz = 45;
    let mut mem = make_mem();
    // A 25-bit input range starts its walk at level 2.
    poke(&mut mem, RAM_BASE + L0_OFF + 8 * 8, table(RAM_BASE + L1_OFF));
    poke(&mut mem, RAM_BASE + L1_OFF, page_leaf(PAGE_PA));
    let accdesc = read_access(&state);
    let result = AArch64FullTranslate(&state, &mut mem, &mut fresh_hdbss(), &mut fresh_cfi(),
        0x0100_0000, accdesc, true);
    assert_eq!(result.fault.statuscode, Fault::Fault_None);
    assert_eq!(result.paddress.unwrap().address, PAGE_PA);
    // The scenario address lies outside the clamped 25-bit range.
    let mut mem2 = make_mem();
    install_s1_tables(&mut mem2, page_leaf(PAGE_PA));
    let rejected = AArch64FullTranslate(&state, &mut mem2, &mut fresh_hdbss(), &mut fresh_cfi(),
        VA, accdesc, true);
    assert_eq!(rejected.fault.statuscode, Fault::Fault_Translation);
    assert_eq!(rejected.fault.level, 0);
}

#[test]
fn scenario_e0pd_blocks_unprivileged_access() {
    // An EL0 access with the EL0-disable control set for the address's
    // half-range faults regardless of the valid mapping.
    let mut state = el1_state();
    state.pstate = ProcState { bits: 0 };
    state.s1_lower.e0pd = 1;
    let mut mem = make_mem();
    install_s1_tables(&mut mem, page_leaf(PAGE_PA));
    let accdesc = read_access(&state);
    assert_eq!(accdesc.el, PrivilegeLevel::PL0);
    let result = AArch64FullTranslate(&state, &mut mem, &mut fresh_hdbss(), &mut fresh_cfi(), VA,
        accdesc, true);
    assert_eq!(result.fault.statuscode, Fault::Fault_Translation);
    assert_eq!(result.fault.level, 0);
    assert_eq!(result.paddress, None);
}

#[test]
fn cas_retry_after_one_interfering_write() {
    // Hardware access-flag update enabled, the leaf's access flag clear, and
    // one interfering write replacing the leaf before the write-back: the
    // compare-and-swap reports one mismatch, the engine retries once, and
    // the result is derived from the post-update descriptor.
    let mut state = el1_state();
    state.s1_lower.ha = 1;
    let mut mem = make_mem();
    let first_leaf = page_leaf(PAGE_PA) & !(1 << 10);
    install_s1_tables(&mut mem, first_leaf);
    let racer_leaf = page_leaf(0x5000_0000) & !(1 << 10);
    mem.racing.push(MemWord { address: RAM_BASE + L3_OFF + 8, value: racer_leaf });
    let accdesc = read_access(&state);
    let result = AArch64FullTranslate(&state, &mut mem, &mut fresh_hdbss(), &mut fresh_cfi(), VA,
        accdesc, true);
    assert_eq!(result.fault.statuscode, Fault::Fault_None);
    assert_eq!(result.paddress.unwrap().address, 0x5000_0000);
    // The interference was consumed and the winning descriptor got its
    // access flag set in memory.
    assert!(mem.racing.is_empty());
    assert_eq!(peek(&mem, RAM_BASE + L3_OFF + 8), racer_leaf | (1 << 10));
}

#[test]
fn access_flag_update_written_back() {
    // With hardware access-flag update and no interference, the update is
    // written back in one pass.
    let mut state = el1_state();
    state.s1_lower.ha = 1;
    let mut mem = make_mem();
    let leaf = page_leaf(PAGE_PA) & !(1 << 10);
    install_s1_tables(&mut mem, leaf);
    let accdesc = read_access(&state);
    let result = AArch64FullTranslate(&state, &mut mem, &mut fresh_hdbss(), &mut fresh_cfi(), VA,
        accdesc, true);
    assert_eq!(result.fault.statuscode, Fault::Fault_None);
    assert_eq!(peek(&mem, RAM_BASE + L3_OFF + 8), leaf | (1 << 10));
}

#[test]
fn dirty_state_update_clears_not_dirty_bit() {
    // Hardware dirty-state update: a write to a page whose descriptor has
    // the dirty-bit-modifier set and the not-dirty (read-only) bit set is
    // permitted, and the not-dirty bit is cleared in memory.
    let mut state = el1_state();
    state.s1_lower.ha = 1;
    state.s1_lower.hd = 1;
    let mut mem = make_mem();
    let leaf = page_leaf(PAGE_PA) | (1 << 7) | (1 << 51);
    install_s1_tables(&mut mem, leaf);
    let accdesc = write_access(&state);
    let result = AArch64FullTranslate(&state, &mut mem, &mut fresh_hdbss(), &mut fresh_cfi(), VA,
        accdesc, true);
    assert_eq!(result.fault.statuscode, Fault::Fault_None);
    assert_eq!(peek(&mem, RAM_BASE + L3_OFF + 8), leaf & !(1 << 7));
}

#[test]
fn translation_fault_on_invalid_entry() {
    let state = el1_state();
    let mut mem = make_mem();
    install_s1_tables(&mut mem, page_leaf(PAGE_PA));
    // Clear the leaf: the level-3 lookup finds an invalid descriptor.
    poke(&mut mem, RAM_BASE + L3_OFF + 8, 0);
    let accdesc = read_access(&state);
    let result = AArch64FullTranslate(&state, &mut mem, &mut fresh_hdbss(), &mut fresh_cfi(), VA,
        accdesc, true);
    assert_eq!(result.fault.statuscode, Fault::Fault_Translation);
    assert_eq!(result.fault.level, 3);
    assert_eq!(result.paddress, None);
}

#[test]
fn access_flag_fault_without_hw_update() {
    let state = el1_state();
    let mut mem = make_mem();
    install_s1_tables(&mut mem, page_leaf(PAGE_PA) & !(1 << 10));
    let accdesc = read_access(&state);
    let result = AArch64FullTranslate(&state, &mut mem, &mut fresh_hdbss(), &mut fresh_cfi(), VA,
        accdesc, true);
    assert_eq!(result.fault.statuscode, Fault::Fault_AccessFlag);
    assert_eq!(result.fault.level, 3);
}

#[test]
fn permission_fault_on_readonly_write() {
    let state = el1_state();
    let mut mem = make_mem();
    // AP[2] set: read-only at every level.
    install_s1_tables(&mut mem, page_leaf(PAGE_PA) | (1 << 7));
    let accdesc = write_access(&state);
    let result = AArch64FullTranslate(&state, &mut mem, &mut fresh_hdbss(), &mut fresh_cfi(), VA,
        accdesc, true);
    assert_eq!(result.fault.statuscode, Fault::Fault_Permission);
    assert_eq!(result.fault.level, 3);
}

#[test]
fn permission_fault_el0_without_unprivileged_bit() {
    let mut state = el1_state();
    state.pstate = ProcState { bits: 0 };
    let mut mem = make_mem();
    // AP[1] clear: the mapping is closed to EL0.
    install_s1_tables(&mut mem, page_leaf(PAGE_PA));
    let accdesc = read_access(&state);
    let result = AArch64FullTranslate(&state, &mut mem, &mut fresh_hdbss(), &mut fresh_cfi(), VA,
        accdesc, true);
    assert_eq!(result.fault.statuscode, Fault::Fault_Permission);
}

#[test]
fn el0_access_allowed_with_unprivileged_bit() {
    let mut state = el1_state();
    state.pstate = ProcState { bits: 0 };
    let mut mem = make_mem();
    // AP[1] set: the mapping is open to EL0.
    install_s1_tables(&mut mem, page_leaf(PAGE_PA) | (1 << 6));
    let accdesc = read_access(&state);
    let result = AArch64FullTranslate(&state, &mut mem, &mut fresh_hdbss(), &mut fresh_cfi(), VA,
        accdesc, true);
    assert_eq!(result.fault.statuscode, Fault::Fault_None);
}

#[test]
fn pan_blocks_privileged_access_to_user_memory() {
    let state = el1_state();
    let mut mem = make_mem();
    install_s1_tables(&mut mem, page_leaf(PAGE_PA) | (1 << 6));
    let mut accdesc = read_access(&state);
    accdesc.pan = true;
    let result = AArch64FullTranslate(&state, &mut mem, &mut fresh_hdbss(), &mut fresh_cfi(), VA,
        accdesc, true);
    assert_eq!(result.fault.statuscode, Fault::Fault_Permission);
}

#[test]
fn alignment_fault_on_unaligned_device_access() {
    let state = el1_state();
    let mut mem = make_mem();
    // Attribute slot 1 is Device nGnRnE in this configuration's indirection
    // register.
    install_s1_tables(&mut mem, page_leaf(PAGE_PA) | (1 << 2));
    let accdesc = read_access(&state);
    let result = AArch64FullTranslate(&state, &mut mem, &mut fresh_hdbss(), &mut fresh_cfi(), VA,
        accdesc, false);
    assert_eq!(result.fault.statuscode, Fault::Fault_Alignment);
}

#[test]
fn address_size_fault_beyond_pa_range() {
    let mut state = el1_state();
    // A 32-bit output-address size cannot hold this leaf's address.
    state.s1_lower.ps = 0;
    let mut mem = make_mem();
    install_s1_tables(&mut mem, page_leaf(0x1_0000_0000));
    let accdesc = read_access(&state);
    let result = AArch64FullTranslate(&state, &mut mem, &mut fresh_hdbss(), &mut fresh_cfi(), VA,
        accdesc, true);
    assert_eq!(result.fault.statuscode, Fault::Fault_AddressSize);
    assert_eq!(result.fault.level, 3);
}

#[test]
fn external_abort_when_walk_leaves_memory() {
    let mut state = el1_state();
    state.ttb_lower.address = 0x9000_0000;
    let mut mem = make_mem();
    let accdesc = read_access(&state);
    let result = AArch64FullTranslate(&state, &mut mem, &mut fresh_hdbss(), &mut fresh_cfi(), VA,
        accdesc, true);
    assert_eq!(result.fault.statuscode, Fault::Fault_SyncExternalOnWalk);
    assert_eq!(result.fault.level, 0);
}

#[test]
fn exclusive_fault_on_ls64_to_cacheable_memory() {
    let state = el1_state();
    let mut mem = make_mem();
    install_s1_tables(&mut mem, page_leaf(PAGE_PA));
    let mut accdesc = read_access(&state);
    accdesc.ls64 = true;
    let result = AArch64FullTranslate(&state, &mut mem, &mut fresh_hdbss(), &mut fresh_cfi(), VA,
        accdesc, true);
    assert_eq!(result.fault.statuscode, Fault::Fault_Exclusive);
}

#[test]
fn stage1_disabled_produces_identity_mapping() {
    let mut state = el1_state();
    state.sctlr_el1.m = false;
    let mut mem = make_mem();
    let accdesc = read_access(&state);
    let result = AArch64FullTranslate(&state, &mut mem, &mut fresh_hdbss(), &mut fresh_cfi(), VA,
        accdesc, true);
    assert_eq!(result.fault.statuscode, Fault::Fault_None);
    assert_eq!(result.paddress.unwrap().address, VA);
    // Data accesses see strongly ordered Device memory.
    assert_eq!(result.memattrs.memtype, MemType::MemType_Device);
    assert_eq!(result.memattrs.device, DeviceType::DeviceType_nGnRnE);
}

#[test]
fn stage1_disabled_dc_instruction_fetch_faults() {
    // With EL2 enabled and the default-cacheable control set, stage 1 is
    // disabled and an instruction fetch takes a Translation fault.
    let mut state = el2_state();
    state.hcr_dc = true;
    let mut mem = make_mem();
    let accdesc = fetch_access(&state);
    let result = AArch64FullTranslate(&state, &mut mem, &mut fresh_hdbss(), &mut fresh_cfi(), VA,
        accdesc, true);
    assert_eq!(result.fault.statuscode, Fault::Fault_Translation);
    assert_eq!(result.fault.level, 0);
}

#[test]
fn stage1_disabled_address_size_check() {
    let mut state = el1_state();
    state.sctlr_el1.m = false;
    state.s1_lower.ps = 0;
    let mut mem = make_mem();
    let accdesc = read_access(&state);
    let result = AArch64FullTranslate(&state, &mut mem, &mut fresh_hdbss(), &mut fresh_cfi(), VA,
        accdesc, true);
    assert_eq!(result.fault.statuscode, Fault::Fault_AddressSize);
    assert_eq!(result.fault.level, 0);
}

#[test]
fn ifetch_from_device_memory_forced_normal_non_cacheable() {
    // An instruction fetch whose walk result is Device-typed reports Normal
    // Non-cacheable attributes, preserving only the XS bit.
    let state = el1_state();
    let mut mem = make_mem();
    install_s1_tables(&mut mem, page_leaf(PAGE_PA) | (1 << 2));
    let accdesc = fetch_access(&state);
    let result = AArch64FullTranslate(&state, &mut mem, &mut fresh_hdbss(), &mut fresh_cfi(), VA,
        accdesc, true);
    assert_eq!(result.fault.statuscode, Fault::Fault_None);
    assert_eq!(result.memattrs.memtype, MemType::MemType_Normal);
    assert_eq!(result.memattrs.inner.attrs, MemAttr::MemAttr_NC);
    assert_eq!(result.memattrs.outer.attrs, MemAttr::MemAttr_NC);
    assert_eq!(result.memattrs.shareability, Shareability::Shareability_OSH);
    assert!(result.memattrs.xs);
}

#[test]
fn disabled_instruction_cache_forces_non_cacheable_fetch() {
    let mut state = el1_state();
    state.sctlr_el1.i = false;
    let mut mem = make_mem();
    install_s1_tables(&mut mem, page_leaf(PAGE_PA));
    let accdesc = fetch_access(&state);
    let result = AArch64FullTranslate(&state, &mut mem, &mut fresh_hdbss(), &mut fresh_cfi(), VA,
        accdesc, true);
    assert_eq!(result.fault.statuscode, Fault::Fault_None);
    assert_eq!(result.memattrs.inner.attrs, MemAttr::MemAttr_NC);
    assert_eq!(result.memattrs.shareability, Shareability::Shareability_OSH);
}

#[test]
fn disabled_data_cache_forces_non_cacheable_data() {
    let mut state = el1_state();
    state.sctlr_el1.c = false;
    let mut mem = make_mem();
    install_s1_tables(&mut mem, page_leaf(PAGE_PA));
    let accdesc = read_access(&state);
    let result = AArch64FullTranslate(&state, &mut mem, &mut fresh_hdbss(), &mut fresh_cfi(), VA,
        accdesc, true);
    assert_eq!(result.fault.statuscode, Fault::Fault_None);
    assert_eq!(result.memattrs.inner.attrs, MemAttr::MemAttr_NC);
}

#[test]
fn guarded_page_surfaced_on_instruction_fetch() {
    let state = el1_state();
    let mut mem = make_mem();
    install_s1_tables(&mut mem, page_leaf(PAGE_PA) | (1 << 50));
    let accdesc = fetch_access(&state);
    let mut cfi = fresh_cfi();
    let result = AArch64FullTranslate(&state, &mut mem, &mut fresh_hdbss(), &mut cfi, VA, accdesc,
        true);
    assert_eq!(result.fault.statuscode, Fault::Fault_None);
    assert!(cfi.in_guarded_page);
}

#[test]
fn full_two_stage_translation() {
    // Stage 1 maps the address to an intermediate-physical page; stage 2
    // maps that page to its physical frame.
    let state = el2_state();
    let mut mem = make_mem();
    install_s1_tables(&mut mem, page_leaf(PAGE_PA));
    install_s2_tables(&mut mem, s2_page_leaf(S2_PAGE_PA));
    let accdesc = read_access(&state);
    let result = AArch64FullTranslate(&state, &mut mem, &mut fresh_hdbss(), &mut fresh_cfi(), VA,
        accdesc, true);
    assert_eq!(result.fault.statuscode, Fault::Fault_None);
    assert_eq!(result.paddress.unwrap().address, S2_PAGE_PA);
    assert_eq!(result.vaddress, VA);
    // Both stages are write-back Normal memory: so is the combination.
    assert_eq!(result.memattrs.memtype, MemType::MemType_Normal);
    assert_eq!(result.memattrs.inner.attrs, MemAttr::MemAttr_WB);
}

#[test]
fn stage2_translation_fault_reported_as_second_stage() {
    let state = el2_state();
    let mut mem = make_mem();
    install_s1_tables(&mut mem, page_leaf(PAGE_PA));
    // No stage-2 mapping: the stage-2 walk finds an invalid entry.
    let accdesc = read_access(&state);
    let result = AArch64FullTranslate(&state, &mut mem, &mut fresh_hdbss(), &mut fresh_cfi(), VA,
        accdesc, true);
    assert_eq!(result.fault.statuscode, Fault::Fault_Translation);
    assert!(result.fault.secondstage);
    assert_eq!(result.paddress, None);
}

#[test]
fn stage2_txsz_fault_flagged_configuration() {
    let mut state = el2_state();
    state.s2_params.txsz = 8;
    state.s2_params.txszfault = true;
    let mut mem = make_mem();
    install_s1_tables(&mut mem, page_leaf(PAGE_PA));
    install_s2_tables(&mut mem, s2_page_leaf(S2_PAGE_PA));
    let accdesc = read_access(&state);
    let result = AArch64FullTranslate(&state, &mut mem, &mut fresh_hdbss(), &mut fresh_cfi(), VA,
        accdesc, true);
    assert_eq!(result.fault.statuscode, Fault::Fault_Translation);
    assert_eq!(result.fault.level, 0);
    assert!(result.fault.secondstage);
}

#[test]
fn stage2_rejects_out_of_range_intermediate_address() {
    let mut state = el2_state();
    // A 25-bit stage-2 input range cannot hold the stage-1 output page.
    state.s2_params.txsz = 39;
    let mut mem = make_mem();
    install_s1_tables(&mut mem, page_leaf(PAGE_PA));
    install_s2_tables(&mut mem, s2_page_leaf(S2_PAGE_PA));
    let accdesc = read_access(&state);
    let result = AArch64FullTranslate(&state, &mut mem, &mut fresh_hdbss(), &mut fresh_cfi(), VA,
        accdesc, true);
    assert_eq!(result.fault.statuscode, Fault::Fault_Translation);
    assert_eq!(result.fault.level, 0);
    assert!(result.fault.secondstage);
}

#[test]
fn stage2_fwb_keeps_stage2_attributes() {
    // Stage 1 maps the page as Device; with forced write-back the stage-2
    // attributes stand alone, without it Device wins the combination.
    let mut state = el2_state();
    state.s2_params.fwb = 1;
    let mut mem = make_mem();
    install_s1_tables(&mut mem, page_leaf(PAGE_PA) | (1 << 2));
    install_s2_tables(&mut mem, s2_page_leaf(S2_PAGE_PA));
    let accdesc = read_access(&state);
    let result = AArch64FullTranslate(&state, &mut mem, &mut fresh_hdbss(), &mut fresh_cfi(), VA,
        accdesc, true);
    assert_eq!(result.fault.statuscode, Fault::Fault_None);
    assert_eq!(result.memattrs.memtype, MemType::MemType_Normal);
    let mut state2 = el2_state();
    state2.s2_params.fwb = 0;
    let mut mem2 = make_mem();
    install_s1_tables(&mut mem2, page_leaf(PAGE_PA) | (1 << 2));
    install_s2_tables(&mut mem2, s2_page_leaf(S2_PAGE_PA));
    let result2 = AArch64FullTranslate(&state2, &mut mem2, &mut fresh_hdbss(), &mut fresh_cfi(),
        VA, accdesc, true);
    assert_eq!(result2.fault.statuscode, Fault::Fault_None);
    assert_eq!(result2.memattrs.memtype, MemType::MemType_Device);
}

#[test]
fn stage2_dirty_transition_logged_to_tracking_structure() {
    let mut state = el2_state();
    state.s2_params.ha = 1;
    state.s2_params.hd = 1;
    state.s2_params.hdbss = 1;
    let mut mem = make_mem();
    install_s1_tables(&mut mem, page_leaf(PAGE_PA));
    // Stage-2 leaf: read-only with the dirty-bit-modifier set.
    let leaf = (s2_page_leaf(S2_PAGE_PA) & !(1 << 7)) | (1 << 51);
    install_s2_tables(&mut mem, leaf);
    let accdesc = write_access(&state);
    let mut hdbss = fresh_hdbss();
    let result = AArch64FullTranslate(&state, &mut mem, &mut hdbss, &mut fresh_cfi(), VA, accdesc,
        true);
    assert_eq!(result.fault.statuscode, Fault::Fault_None);
    assert_eq!(hdbss.entries.len(), 1);
    assert_eq!(hdbss.entries[0].ipaddress.address, PAGE_PA);
    // The write-permission/dirty bit was set in memory.
    assert_eq!(peek(&mem, RAM_BASE + S2_L3_OFF), leaf | (1 << 7));
}

#[test]
fn tracking_structure_abort_is_fatal() {
    let mut state = el2_state();
    state.s2_params.ha = 1;
    state.s2_params.hd = 1;
    state.s2_params.hdbss = 1;
    let mut mem = make_mem();
    install_s1_tables(&mut mem, page_leaf(PAGE_PA));
    let leaf = (s2_page_leaf(S2_PAGE_PA) & !(1 << 7)) | (1 << 51);
    install_s2_tables(&mut mem, leaf);
    let accdesc = write_access(&state);
    let mut hdbss = fresh_hdbss();
    hdbss.abort = true;
    let result = AArch64FullTranslate(&state, &mut mem, &mut hdbss, &mut fresh_cfi(), VA, accdesc,
        true);
    assert_eq!(result.fault.statuscode, Fault::Fault_SyncExternal);
    assert_eq!(result.paddress, None);
}

#[test]
fn full_tracking_structure_suppresses_only_dirty_update() {
    let mut state = el2_state();
    state.s2_params.ha = 1;
    state.s2_params.hd = 1;
    state.s2_params.hdbss = 1;
    let mut mem = make_mem();
    install_s1_tables(&mut mem, page_leaf(PAGE_PA));
    let leaf = (s2_page_leaf(S2_PAGE_PA) & !(1 << 7)) | (1 << 51);
    install_s2_tables(&mut mem, leaf);
    let accdesc = write_access(&state);
    let mut hdbss = fresh_hdbss();
    hdbss.capacity = 0;
    let result = AArch64FullTranslate(&state, &mut mem, &mut hdbss, &mut fresh_cfi(), VA, accdesc,
        true);
    // The translation still succeeds; the descriptor keeps its old dirty
    // state.
    assert_eq!(result.fault.statuscode, Fault::Fault_None);
    assert!(hdbss.entries.is_empty());
    assert_eq!(peek(&mem, RAM_BASE + S2_L3_OFF), leaf);
}

#[test]
fn combine_device_beats_normal() {
    let device = MemoryAttributes {
        memtype: MemType::MemType_Device,
        device: DeviceType::DeviceType_nGnRE,
        inner: MemAttrHints {
            attrs: MemAttr::MemAttr_NC,
            hints: MemHint::MemHint_No,
            transient: false,
        },
        outer: MemAttrHints {
            attrs: MemAttr::MemAttr_NC,
            hints: MemHint::MemHint_No,
            transient: false,
        },
        shareability: Shareability::Shareability_OSH,
        tags: MemTagType::MemTag_Untagged,
        notagaccess: false,
        xs: true,
    };
    let mut normal = NormalNCMemAttr();
    normal.inner.attrs = MemAttr::MemAttr_WB;
    normal.outer.attrs = MemAttr::MemAttr_WB;
    let combined = S2CombineS1MemAttrs(device, normal);
    assert_eq!(combined.memtype, MemType::MemType_Device);
    assert_eq!(combined.device, DeviceType::DeviceType_nGnRE);
    assert_eq!(combined.shareability, Shareability::Shareability_OSH);
}

#[test]
fn combine_takes_most_restrictive_cacheability_and_shareability() {
    let wt = MemAttrHints { attrs: MemAttr::MemAttr_WT, hints: MemHint::MemHint_RA, transient: false };
    let wb = MemAttrHints {
        attrs: MemAttr::MemAttr_WB,
        hints: MemHint::MemHint_RWA,
        transient: false,
    };
    let s1 = MemoryAttributes {
        memtype: MemType::MemType_Normal,
        device: DeviceType::DeviceType_GRE,
        inner: wt,
        outer: wb,
        shareability: Shareability::Shareability_NSH,
        tags: MemTagType::MemTag_Untagged,
        notagaccess: false,
        xs: false,
    };
    let s2 = MemoryAttributes {
        memtype: MemType::MemType_Normal,
        device: DeviceType::DeviceType_GRE,
        inner: wb,
        outer: wt,
        shareability: Shareability::Shareability_ISH,
        tags: MemTagType::MemTag_Untagged,
        notagaccess: false,
        xs: false,
    };
    let combined = S2CombineS1MemAttrs(s1, s2);
    assert_eq!(combined.inner.attrs, MemAttr::MemAttr_WT);
    assert_eq!(combined.outer.attrs, MemAttr::MemAttr_WT);
    assert_eq!(combined.shareability, Shareability::Shareability_ISH);
}
