//! The physical-memory collaborator, as an explicit value: a window of
//! 64-bit words holding the translation tables, plus a schedule of
//! interfering writes that model concurrent translation contexts racing on
//! the same descriptors. Descriptor fetches read the window; hardware
//! access-flag and dirty-state updates go through a single-copy-atomic
//! compare-and-swap that consumes at most one scheduled interfering write
//! per attempt.
use vstd::prelude::*;

verus! {

use crate::shared_memory::{Fault, FaultRecord, FullAddress};
use crate::shared_vmsa::S2TTWParams;

/// One 64-bit word of physical memory: an 8-byte-aligned address and the
/// value stored there.
#[derive(Debug, Copy, Clone, PartialEq, Eq, Structural)]
pub struct MemWord {
    pub address: u64,
    pub value: u64,
}

/// Whether `addr` names a word inside a window of `n` words based at `base`.
pub open spec fn spec_mem_contains(base: u64, n: nat, addr: u64) -> bool {
    addr % 8 == 0 && addr >= base && ((addr - base) as int) / 8 < n
}

/// The word index `addr` names inside a window based at `base`.
pub open spec fn spec_mem_idx(base: u64, addr: u64) -> int {
    ((addr - base) as int) / 8
}

/// The window contents after writing `v` at `addr`: unchanged when `addr`
/// lies outside the window.
pub open spec fn spec_words_write(base: u64, words: Seq<u64>, addr: u64, v: u64) -> Seq<u64> {
    if spec_mem_contains(base, words.len(), addr) {
        words.update(spec_mem_idx(base, addr), v)
    } else {
        words
    }
}

/// Physical memory holding the translation tables: one contiguous window of
/// 64-bit words, and the schedule of interfering writes that concurrent
/// translation contexts will perform, one per compare-and-swap attempt.
#[derive(Debug, Clone, PartialEq, Eq)]
pub struct PhysMem {
    /// Base address of the window, 8-byte aligned
    pub base: u64,
    /// The words of the window, from `base` upward
    pub words: Vec<u64>,
    /// Interfering writes still to happen, oldest first
    pub racing: Vec<MemWord>,
}

impl PhysMem {
    /// The window is aligned and fits the address space.
    pub open spec fn wf(self) -> bool {
        self.base % 8 == 0 && self.base + 8 * self.words@.len() <= 0x1_0000_0000_0000_0000
    }

    /// Whether `addr` names a word of the window.
    pub open spec fn spec_contains(self, addr: u64) -> bool {
        spec_mem_contains(self.base, self.words@.len(), addr)
    }

    /// The value stored at `addr`, absent when `addr` lies outside the
    /// window.
    pub open spec fn spec_read(self, addr: u64) -> Option<u64> {
        if self.spec_contains(addr) {
            Some(self.words@[spec_mem_idx(self.base, addr)])
        } else {
            None
        }
    }

    /// The window contents once the oldest scheduled interfering write has
    /// happened; unchanged when none is scheduled.
    pub open spec fn spec_after_racing_words(self) -> Seq<u64> {
        if self.racing@.len() == 0 {
            self.words@
        } else {
            spec_words_write(self.base, self.words@, self.racing@[0].address, self.racing@[0].value)
        }
    }

    /// Read the 64-bit word at `addr`; external accesses outside the window
    /// return nothing, which callers surface as an external abort.
    pub fn read64(&self, addr: u64) -> (r: Option<u64>)
        requires
            self.wf(),
        ensures
            r == self.spec_read(addr),
    {
        if addr % 8 == 0 && addr >= self.base {
            let q: u64 = (addr - self.base) / 8;
            if q < self.words.len() as u64 {
                Some(self.words[q as usize])
            } else {
                None
            }
        } else {
            None
        }
    }

    /// Write the 64-bit word at `addr`; reports whether the address lies in
    /// the window. The racing schedule is untouched.
    fn write64(&mut self, addr: u64, v: u64) -> (ok: bool)
        requires
            old(self).wf(),
        ensures
            final(self).wf(),
            final(self).base == old(self).base,
            final(self).racing@ == old(self).racing@,
            final(self).words@ == spec_words_write(old(self).base, old(self).words@, addr, v),
            ok == old(self).spec_contains(addr),
    {
        if addr % 8 == 0 && addr >= self.base {
            let q: u64 = (addr - self.base) / 8;
            if q < self.words.len() as u64 {
                self.words[q as usize] = v;
                return true;
            }
        }
        false
    }

    /// Single-copy-atomic compare-and-swap on the word at `addr`: at most
    /// one scheduled interfering write happens first, then the word is
    /// compared with `expected` and replaced by `desired` only on a match.
    /// Returns the value the word holds afterwards — equal to `desired`
    /// exactly when the swap took effect — or nothing when `addr` lies
    /// outside the window. At most one writer observes success for a given
    /// expected value because the compare and the write are one step.
    pub fn swap64(&mut self, addr: u64, expected: u64, desired: u64) -> (r: Option<u64>)
        requires
            old(self).wf(),
        ensures
            final(self).wf(),
            final(self).base == old(self).base,
            final(self).words@.len() == old(self).words@.len(),
            final(self).racing@ == if old(self).racing@.len() == 0 {
                old(self).racing@
            } else {
                old(self).racing@.remove(0)
            },
            ({
                let w1 = old(self).spec_after_racing_words();
                if spec_mem_contains(old(self).base, w1.len(), addr) {
                    if w1[spec_mem_idx(old(self).base, addr)] == expected {
                        r == Some(desired) && final(self).words@ == spec_words_write(
                            old(self).base,
                            w1,
                            addr,
                            desired,
                        )
                    } else {
                        r == Some(w1[spec_mem_idx(old(self).base, addr)]) && final(self).words@
                            == w1
                    }
                } else {
                    r is None && final(self).words@ == w1
                }
            }),
            // Without scheduled interference, a swap whose expectation
            // matches memory always succeeds.
            (old(self).racing@.len() == 0 && old(self).spec_read(addr) == Some(expected)) ==> r
                == Some(desired),
    {
        if self.racing.len() > 0 {
            let w = self.racing.remove(0);
            let _ok = self.write64(w.address, w.value);
        }
        let cur = self.read64(addr);
        match cur {
            None => None,
            Some(v) => {
                if v == expected {
                    let _ok = self.write64(addr, desired);
                    Some(desired)
                } else {
                    Some(v)
                }
            },
        }
    }
}

/// Reverse the byte order of a 64-bit value.
pub open spec fn spec_byte_swap64(x: u64) -> u64 {
    ((x & 0xFF) << 56) | (((x >> 8) & 0xFF) << 48) | (((x >> 16) & 0xFF) << 40) | (((x >> 24)
        & 0xFF) << 32) | (((x >> 32) & 0xFF) << 24) | (((x >> 40) & 0xFF) << 16) | (((x >> 48)
        & 0xFF) << 8) | ((x >> 56) & 0xFF)
}

/// Reverse the byte order of a big-endian 64-bit descriptor.
pub fn BigEndianReverse64(x: u64) -> (r: u64)
    ensures
        r == spec_byte_swap64(x),
{
    ((x & 0xFF) << 56) | (((x >> 8) & 0xFF) << 48) | (((x >> 16) & 0xFF) << 40) | (((x >> 24)
        & 0xFF) << 32) | (((x >> 32) & 0xFF) << 24) | (((x >> 40) & 0xFF) << 16) | (((x >> 48)
        & 0xFF) << 8) | ((x >> 56) & 0xFF)
}

/// A 64-bit word as it is fetched from `addr`: the stored value, with its
/// bytes reversed when the tables are big-endian (`ee` set).
pub open spec fn spec_fetch64(mem: PhysMem, ee: u64, addr: u64) -> Option<u64> {
    match mem.spec_read(addr) {
        None => None,
        Some(w) => Some(
            if ee == 1 {
                spec_byte_swap64(w)
            } else {
                w
            },
        ),
    }
}

/// The descriptor a walk fetches at `addr`: one word, or two adjacent words
/// under the 128-bit descriptor format, low word first.
pub open spec fn spec_fetch_descriptor(mem: PhysMem, ee: u64, addr: u64, d128: u64) -> Option<
    u128,
> {
    match spec_fetch64(mem, ee, addr) {
        None => None,
        Some(lo) => if d128 == 1 {
            if addr + 8 < 0x1_0000_0000_0000_0000 {
                match spec_fetch64(mem, ee, (addr + 8) as u64) {
                    None => None,
                    Some(hi) => Some(lo as u128 | ((hi as u128) << 64)),
                }
            } else {
                None
            }
        } else {
            Some(lo as u128)
        },
    }
}

/// Fetch a translation-table descriptor from physical memory. A fetch that
/// reaches outside the modelled window is an external abort on the walk:
/// the returned record carries that fault and the descriptor is zero.
pub fn FetchDescriptor(mem: &PhysMem, ee: u64, addr: u64, d128: u64, fault_in: FaultRecord) -> (r:
    (FaultRecord, u128))
    requires
        mem.wf(),
    ensures
        (spec_fetch_descriptor(*mem, ee, addr, d128) is Some) ==> (r.0 == fault_in && Some(r.1)
            == spec_fetch_descriptor(*mem, ee, addr, d128)),
        (spec_fetch_descriptor(*mem, ee, addr, d128) is None) ==> r.0
            == crate::shared_memory::spec_fault_with_status(
            fault_in,
            Fault::Fault_SyncExternalOnWalk,
        ),
{
    let mut fault = fault_in;
    let lo_raw = mem.read64(addr);
    match lo_raw {
        None => {
            fault.statuscode = Fault::Fault_SyncExternalOnWalk;
            (fault, 0)
        },
        Some(lo0) => {
            let lo: u64 = if ee == 1 {
                BigEndianReverse64(lo0)
            } else {
                lo0
            };
            if d128 == 1 {
                if addr >= 0xFFFF_FFFF_FFFF_FFF8u64 {
                    fault.statuscode = Fault::Fault_SyncExternalOnWalk;
                    return (fault, 0);
                }
                let hi_raw = mem.read64(addr + 8);
                match hi_raw {
                    None => {
                        fault.statuscode = Fault::Fault_SyncExternalOnWalk;
                        (fault, 0)
                    },
                    Some(hi0) => {
                        let hi: u64 = if ee == 1 {
                            BigEndianReverse64(hi0)
                        } else {
                            hi0
                        };
                        (fault, lo as u128 | ((hi as u128) << 64))
                    },
                }
            } else {
                (fault, lo as u128)
            }
        },
    }
}

/// Write back an updated translation-table descriptor with a single-copy-
/// atomic compare-and-swap through the descriptor's physical address.
/// Hardware updates touch only the low descriptor word, so the swap is on
/// that word; the value now in memory is returned so the caller can decide
/// whether its update converged. A swap outside the modelled window is an
/// external abort.
pub fn AArch64MemSwapTableDesc(
    mem: &mut PhysMem,
    fault_in: FaultRecord,
    descriptor: u128,
    new_desc: u128,
    ee: u64,
    addr: u64,
) -> (r: (FaultRecord, u128))
    requires
        old(mem).wf(),
        (descriptor >> 64) == (new_desc >> 64),
    ensures
        final(mem).wf(),
        final(mem).base == old(mem).base,
        final(mem).words@.len() == old(mem).words@.len(),
        final(mem).racing@ == if old(mem).racing@.len() == 0 {
            old(mem).racing@
        } else {
            old(mem).racing@.remove(0)
        },
        r.0.statuscode == fault_in.statuscode || r.0
            == crate::shared_memory::spec_fault_with_status(fault_in, Fault::Fault_SyncExternal),
        ({
            let w1 = old(mem).spec_after_racing_words();
            let raw_old = if ee == 1 {
                spec_byte_swap64(descriptor as u64)
            } else {
                descriptor as u64
            };
            let raw_new = if ee == 1 {
                spec_byte_swap64(new_desc as u64)
            } else {
                new_desc as u64
            };
            if spec_mem_contains(old(mem).base, w1.len(), addr) {
                r.0 == fault_in && (if w1[spec_mem_idx(old(mem).base, addr)] == raw_old {
                    final(mem).words@ == spec_words_write(old(mem).base, w1, addr, raw_new) && r.1
                        == new_desc
                } else {
                    final(mem).words@ == w1 && (r.1 as u64) == (if ee == 1 {
                        spec_byte_swap64(w1[spec_mem_idx(old(mem).base, addr)])
                    } else {
                        w1[spec_mem_idx(old(mem).base, addr)]
                    }) && (r.1 >> 64) == (descriptor >> 64)
                })
            } else {
                r.0 == crate::shared_memory::spec_fault_with_status(
                    fault_in,
                    Fault::Fault_SyncExternal,
                ) && final(mem).words@ == w1
            }
        }),
    {
    let mut fault = fault_in;
    let raw_old: u64 = if ee == 1 {
        BigEndianReverse64(descriptor as u64)
    } else {
        descriptor as u64
    };
    let raw_new: u64 = if ee == 1 {
        BigEndianReverse64(new_desc as u64)
    } else {
        new_desc as u64
    };
    let swapped = mem.swap64(addr, raw_old, raw_new);
    match swapped {
        None => {
            fault.statuscode = Fault::Fault_SyncExternal;
            (fault, 0)
        },
        Some(raw_after) => {
            let after: u64 = if ee == 1 {
                BigEndianReverse64(raw_after)
            } else {
                raw_after
            };
            let mem_desc: u128 = (after as u128) | (((descriptor >> 64) as u64 as u128) << 64);
            proof {
                crate::bitops::lemma_u128_low_high(descriptor, new_desc, after);
                crate::bitops::lemma_byte_swap_involutive(new_desc as u64);
            }
            (fault, mem_desc)
        },
    }
}

/// One record of the hardware-dirty-state tracking structure: which
/// intermediate-physical page had its dirty state set, and at which level.
#[derive(Debug, Copy, Clone, PartialEq, Eq, Structural)]
pub struct HdbssEntry {
    pub ipaddress: FullAddress,
    pub level: u64,
}

/// The hardware-dirty-state tracking collaborator: a bounded log of dirty
/// transitions, with a switch that injects an external abort.
#[derive(Debug, Clone, PartialEq, Eq)]
pub struct Hdbss {
    pub entries: Vec<HdbssEntry>,
    /// How many entries the structure can hold
    pub capacity: usize,
    /// Inject an external abort on the next append
    pub abort: bool,
}

/// Append a dirty-state transition to the tracking structure. An external
/// abort is fatal to the translation; a full structure is not — it only
/// suppresses the hardware dirty update, which the caller reads off the
/// second component.
pub fn AppendToHDBSS(
    hdbss: &mut Hdbss,
    fault_in: FaultRecord,
    ipaddress: FullAddress,
    _walkparams: S2TTWParams,
    level: u64,
) -> (r: (FaultRecord, bool))
    ensures
        old(hdbss).abort ==> (r.0 == crate::shared_memory::spec_fault_with_status(
            fault_in,
            Fault::Fault_SyncExternal,
        ) && !r.1 && *final(hdbss) == *old(hdbss)),
        (!old(hdbss).abort && old(hdbss).entries@.len() >= old(hdbss).capacity) ==> (r.0 == fault_in
            && !r.1 && *final(hdbss) == *old(hdbss)),
        (!old(hdbss).abort && old(hdbss).entries@.len() < old(hdbss).capacity) ==> (r.0 == fault_in
            && r.1 && final(hdbss).entries@ == old(hdbss).entries@.push(
            (HdbssEntry { ipaddress, level }),
        ) && final(hdbss).capacity == old(hdbss).capacity && final(hdbss).abort == old(
            hdbss,
        ).abort),
{
    let mut fault = fault_in;
    if hdbss.abort {
        fault.statuscode = Fault::Fault_SyncExternal;
        (fault, false)
    } else if hdbss.entries.len() >= hdbss.capacity {
        (fault, false)
    } else {
        hdbss.entries.push(HdbssEntry { ipaddress, level });
        (fault, true)
    }
}

} // verus!
