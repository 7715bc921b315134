//! A verified model of the Armv8-A AArch64 VMSA address-translation pipeline:
//! stage-1 and stage-2 translation-table walks, fault/permission/attribute
//! computation, and the orchestrator that composes them.
//!
//! Architectural register state, physical memory and the other collaborators
//! are explicit values passed into every call, so the engine is a family of
//! referentially transparent functions with contracts.
#![allow(non_camel_case_types)]
#![allow(non_snake_case)]

pub mod bitops;
pub mod physmem;
pub mod shared_mec;
pub mod shared;
pub mod shared_memory;
pub mod shared_mpam;
pub mod shared_translation;
pub mod shared_vmsa;
pub mod sysregs;
pub mod translation64;
pub mod walk;
