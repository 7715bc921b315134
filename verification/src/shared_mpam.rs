//! Memory-partitioning (MPAM) tags: the partition id, monitor group and
//! partition-id space stamped on an access while its descriptor is built.
use vstd::prelude::*;

verus! {

use crate::shared::SecurityState;
use crate::shared_memory::AccessType;
use crate::sysregs::ArchState;

/// A partition id.
#[derive(Debug, Copy, Clone, PartialEq, Eq, Structural)]
pub struct PARTIDType(pub u16);

/// A performance-monitor group.
#[derive(Debug, Copy, Clone, PartialEq, Eq, Structural)]
pub struct PMGType(pub u8);

/// The space a partition id belongs to, one per security state.
#[derive(Debug, Copy, Clone, PartialEq, Eq, Structural)]
pub enum PARTIDSpaceType {
    PIDSpace_Secure,
    PIDSpace_Root,
    PIDSpace_Realm,
    PIDSpace_NonSecure,
}

/// The partitioning information carried by an access descriptor.
#[derive(Debug, Copy, Clone, PartialEq, Eq, Structural)]
pub struct MPAMinfo {
    pub mpam_sp: PARTIDSpaceType,
    pub partid: PARTIDType,
    pub pmg: PMGType,
}

/// The default partition id.
pub const DEFAULT_PARTID: u16 = 0;

/// The default performance-monitor group.
pub const DEFAULT_PMG: u8 = 0;

/// The primary partition-id space of a security state.
pub open spec fn spec_partid_space_from_ss(security: SecurityState) -> PARTIDSpaceType {
    match security {
        SecurityState::SS_NonSecure => PARTIDSpaceType::PIDSpace_NonSecure,
        SecurityState::SS_Root => PARTIDSpaceType::PIDSpace_Root,
        SecurityState::SS_Realm => PARTIDSpaceType::PIDSpace_Realm,
        SecurityState::SS_Secure => PARTIDSpaceType::PIDSpace_Secure,
    }
}

/// Returns the primary partition-id space for a security state.
pub fn PARTIDSpaceFromSS(security: SecurityState) -> (r: PARTIDSpaceType)
    ensures
        r == spec_partid_space_from_ss(security),
{
    match security {
        SecurityState::SS_NonSecure => PARTIDSpaceType::PIDSpace_NonSecure,
        SecurityState::SS_Root => PARTIDSpaceType::PIDSpace_Root,
        SecurityState::SS_Realm => PARTIDSpaceType::PIDSpace_Realm,
        SecurityState::SS_Secure => PARTIDSpaceType::PIDSpace_Secure,
    }
}

/// The default partitioning information for a security state: default
/// partition id and monitor group in the state's primary space.
pub open spec fn spec_default_mpam_info(security: SecurityState) -> MPAMinfo {
    MPAMinfo {
        mpam_sp: spec_partid_space_from_ss(security),
        partid: PARTIDType(DEFAULT_PARTID),
        pmg: PMGType(DEFAULT_PMG),
    }
}

/// Returns default MPAM information for a security state.
pub fn DefaultMPAMinfo(security: SecurityState) -> (r: MPAMinfo)
    ensures
        r == spec_default_mpam_info(security),
{
    MPAMinfo {
        mpam_sp: PARTIDSpaceFromSS(security),
        partid: PARTIDType(DEFAULT_PARTID),
        pmg: PMGType(DEFAULT_PMG),
    }
}

/// Returns the MPAM information for the current exception level and security
/// state. Partitioning is modelled as disabled, so every access carries the
/// default partition id and monitor group of the current security state.
pub fn GenMPAMCurEL(state: &ArchState, _acctype: AccessType) -> (r: MPAMinfo)
    ensures
        r == spec_default_mpam_info(crate::sysregs::spec_current_security_state(*state)),
{
    let ss = crate::sysregs::CurrentSecurityState(state);
    DefaultMPAMinfo(ss)
}

} // verus!
