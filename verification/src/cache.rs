//! Cache discovery and maintenance.
//!
//! The topology of the caches is decoded from the cache level identification
//! register, the geometry of one cache from the cache geometry register
//! after the cache has been selected. Nothing is kept: every call decodes
//! anew.
use crate::bits::field;
use crate::regs::{Cpu, CpuView, SysReg};
use crate::sys_regs::{
    CCSIDR_EL1_CCIDX, CCSIDR_EL1_NO_CCIDX, CLIDR_EL1, CSSELR_EL1, ID_AA64MMFR2_EL1,
};
use core::ops::RangeInclusive;
use vstd::prelude::*;

pub mod dcache;
pub mod icache;

pub use dcache::DCache;
pub use icache::ICache;

verus! {

/// Selects one cache: the instruction cache or the data or unified cache of
/// the level with index `idx`, where index 0 is level 1.
#[derive(Debug, Clone, Copy, PartialEq, Eq, Structural)]
pub enum Cache {
    Instruction { idx: u8 },
    DataOrUnified { idx: u8 },
}

impl Cache {
    /// The index of the level.
    pub open spec fn level(self) -> u8 {
        match self {
            Cache::Instruction { idx } => idx,
            Cache::DataOrUnified { idx } => idx,
        }
    }

    /// Whether the instruction cache is meant.
    pub open spec fn instruction(self) -> bool {
        self is Instruction
    }

    /// The instruction cache of level 1.
    pub fn I_L1() -> (c: Self)
        ensures
            c == (Cache::Instruction { idx: 0 }),
    {
        Cache::Instruction { idx: 0 }
    }

    /// The instruction cache of level 2.
    pub fn I_L2() -> (c: Self)
        ensures
            c == (Cache::Instruction { idx: 1 }),
    {
        Cache::Instruction { idx: 1 }
    }

    /// The instruction cache of level 3.
    pub fn I_L3() -> (c: Self)
        ensures
            c == (Cache::Instruction { idx: 2 }),
    {
        Cache::Instruction { idx: 2 }
    }

    /// The data or unified cache of level 1.
    pub fn D_L1() -> (c: Self)
        ensures
            c == (Cache::DataOrUnified { idx: 0 }),
    {
        Cache::DataOrUnified { idx: 0 }
    }

    /// The data or unified cache of level 2.
    pub fn D_L2() -> (c: Self)
        ensures
            c == (Cache::DataOrUnified { idx: 1 }),
    {
        Cache::DataOrUnified { idx: 1 }
    }

    /// The data or unified cache of level 3.
    pub fn D_L3() -> (c: Self)
        ensures
            c == (Cache::DataOrUnified { idx: 2 }),
    {
        Cache::DataOrUnified { idx: 2 }
    }
}

/// What a maintenance operation does to a cache line.
#[derive(Debug, Clone, Copy, PartialEq, Eq, Structural)]
pub enum CacheOp {
    Clean,
    Invalidate,
    CleanInvalidate,
}

/// Which caches one level implements.
#[derive(Debug, Clone, Copy, PartialEq, Eq, Structural)]
pub enum CacheImpl {
    NoCache,
    InstructionOnly,
    DataOnly,
    SeperateInstructionAndData,
    Unified,
}

impl CacheImpl {
    /// Whether a level of this kind has the cache that `cache` selects.
    pub open spec fn has(self, cache: Cache) -> bool {
        match self {
            CacheImpl::NoCache => false,
            CacheImpl::InstructionOnly => cache is Instruction,
            CacheImpl::DataOnly => cache is DataOrUnified,
            CacheImpl::SeperateInstructionAndData => true,
            CacheImpl::Unified => cache is DataOrUnified,
        }
    }

    /// The kind that the three-bit type field `ctype` encodes. The reserved
    /// encodings stand for no cache.
    pub open spec fn of_ctype(ctype: u64) -> CacheImpl {
        if ctype == 1 {
            CacheImpl::InstructionOnly
        } else if ctype == 2 {
            CacheImpl::DataOnly
        } else if ctype == 3 {
            CacheImpl::SeperateInstructionAndData
        } else if ctype == 4 {
            CacheImpl::Unified
        } else {
            CacheImpl::NoCache
        }
    }

    /// Whether a level of this kind has the cache that `cache` selects.
    pub fn contains(self, cache: Cache) -> (r: bool)
        ensures
            r == self.has(cache),
    {
        match (self, cache) {
            (CacheImpl::InstructionOnly, Cache::Instruction { .. }) => true,
            (CacheImpl::DataOnly, Cache::DataOrUnified { .. }) => true,
            (CacheImpl::SeperateInstructionAndData, _) => true,
            (CacheImpl::Unified, Cache::DataOrUnified { .. }) => true,
            _ => false,
        }
    }

    /// Decodes a three-bit type field.
    pub fn from_ctype(ctype: u8) -> (r: Self)
        ensures
            r == Self::of_ctype(ctype as u64),
    {
        match ctype {
            1 => CacheImpl::InstructionOnly,
            2 => CacheImpl::DataOnly,
            3 => CacheImpl::SeperateInstructionAndData,
            4 => CacheImpl::Unified,
            _ => CacheImpl::NoCache,
        }
    }
}

/// The type field of the level with index `level` in the raw content
/// `clidr` of the cache level identification register.
pub open spec fn ctype_of(clidr: u64, level: int) -> u64 {
    field(clidr, (3 * level) as u32, 0x7)
}

/// Whether the type field `ctype` names an implemented cache: neither "no
/// cache" nor a reserved encoding.
pub open spec fn implemented(ctype: u64) -> bool {
    1 <= ctype <= 4
}

/// Among the first `n` levels of `clidr`, the count of levels from the
/// first one up to, and without, the first that is not implemented.
pub open spec fn levels_among(clidr: u64, n: int) -> int
    decreases n,
{
    if n <= 0 {
        0
    } else if levels_among(clidr, n - 1) == n - 1 && implemented(ctype_of(clidr, n - 1)) {
        n
    } else {
        levels_among(clidr, n - 1)
    }
}

/// The count of implemented cache levels that `clidr` describes: the
/// levels before the first "no cache" or reserved encoding, seven at most.
pub open spec fn level_count(clidr: u64) -> int {
    levels_among(clidr, 7)
}

/// What the level with index `level` implements according to `clidr`.
pub open spec fn impl_at(clidr: u64, level: int) -> CacheImpl {
    if 0 <= level < level_count(clidr) {
        CacheImpl::of_ctype(ctype_of(clidr, level))
    } else {
        CacheImpl::NoCache
    }
}

/// Whether `clidr` describes a core that has the cache that `cache`
/// selects.
pub open spec fn has_cache(clidr: u64, cache: Cache) -> bool {
    cache.level() < 7 && impl_at(clidr, cache.level() as int).has(cache)
}

/// The counted levels are implemented, and the count stops at the first
/// level that is not: the count is seven, or the level after the counted
/// ones is not implemented.
pub proof fn lemma_level_count(clidr: u64)
    ensures
        0 <= level_count(clidr) <= 7,
        forall|i: int| 0 <= i < level_count(clidr) ==> implemented(#[trigger] ctype_of(clidr, i)),
        level_count(clidr) < 7 ==> !implemented(ctype_of(clidr, level_count(clidr))),
{
    lemma_levels_among(clidr, 7);
}

/// See [`lemma_level_count`]; here for the first `n` levels.
pub proof fn lemma_levels_among(clidr: u64, n: int)
    requires
        0 <= n,
    ensures
        0 <= levels_among(clidr, n) <= n,
        forall|i: int|
            0 <= i < levels_among(clidr, n) ==> implemented(#[trigger] ctype_of(clidr, i)),
        levels_among(clidr, n) < n ==> !implemented(ctype_of(clidr, levels_among(clidr, n))),
    decreases n,
{
    if n > 0 {
        lemma_levels_among(clidr, n - 1);
    }
}

/// The cache topology of the core.
pub struct Caches {
    /// The implemented levels, counted from 1.
    pub levels: RangeInclusive<u8>,
    /// What each level implements, by index.
    pub impls: [CacheImpl; 7],
    pub level_of_unification_inner_shareable: u8,
    pub level_of_coherence: u8,
    pub level_of_unification_uniprocessor: u8,
    pub inner_cache_boundary: Option<u8>,
}

impl Caches {
    /// Whether this is the topology that the raw content `clidr` of the
    /// cache level identification register describes.
    pub open spec fn describes(self, clidr: u64) -> bool {
        &&& self.levels@.start == 1
        &&& self.levels@.end == level_count(clidr)
        &&& !self.levels@.exhausted
        &&& self.impls@ == Seq::new(7, |i: int| impl_at(clidr, i))
        &&& self.level_of_unification_inner_shareable == field(clidr, 21, 0x7)
        &&& self.level_of_coherence == field(clidr, 24, 0x7)
        &&& self.level_of_unification_uniprocessor == field(clidr, 27, 0x7)
        &&& self.inner_cache_boundary == if field(clidr, 30, 0x7) > 0 {
            Some(field(clidr, 30, 0x7) as u8)
        } else {
            None
        }
    }

    /// Decodes the topology from a value of the cache level identification
    /// register.
    pub fn decode(clidr: CLIDR_EL1) -> (caches: Self)
        ensures
            caches.describes(clidr.raw),
    {
        let mut impls = [CacheImpl::NoCache;7];
        let louis = clidr.LOUIS();
        let loc = clidr.LOC();
        let louu = clidr.LOUU();
        let icb = clidr.ICB();

        let mut levels: u8 = 0;
        let mut level: u32 = 0;
        while level < 7
            invariant
                level <= 7,
                levels as int == levels_among(clidr.raw, level as int),
                impls@ == Seq::new(
                    7,
                    |i: int|
                        if i < levels {
                            CacheImpl::of_ctype(ctype_of(clidr.raw, i))
                        } else {
                            CacheImpl::NoCache
                        },
                ),
            decreases 7 - level,
        {
            let typ = clidr.CTYPE(level);
            if levels as u32 == level && 1 <= typ && typ <= 4 {
                impls[level as usize] = CacheImpl::from_ctype(typ);
                levels = levels + 1;
            }
            level = level + 1;
            assert(impls@ =~= Seq::new(
                7,
                |i: int|
                    if i < levels {
                        CacheImpl::of_ctype(ctype_of(clidr.raw, i))
                    } else {
                        CacheImpl::NoCache
                    },
            ));
        }
        assert(impls@ =~= Seq::new(7, |i: int| impl_at(clidr.raw, i)));

        Caches {
            levels: RangeInclusive::new(1, levels),
            impls,
            level_of_unification_inner_shareable: louis,
            level_of_coherence: loc,
            level_of_unification_uniprocessor: louu,
            inner_cache_boundary: if icb > 0 {
                Some(icb)
            } else {
                None
            },
        }
    }

    /// Reads the cache level identification register and decodes the
    /// topology.
    pub fn get(cpu: &Cpu) -> (caches: Self)
        ensures
            caches.describes(cpu@.read(SysReg::CLIDR_EL1)),
    {
        Self::decode(CLIDR_EL1::read(cpu))
    }
}

/// The geometry of one cache.
#[derive(Debug, Clone, Copy, PartialEq, Eq, Structural)]
pub struct CacheInfo {
    pub cache: Cache,
    /// Bytes in a line.
    pub linesize: u16,
    pub num_ways: u32,
    pub num_sets: u32,
}

/// Bytes in a cache line whose size field is `line_size`: sixteen, doubled
/// `line_size` times.
pub open spec fn line_bytes(line_size: u64) -> int {
    if line_size == 0 {
        16
    } else if line_size == 1 {
        32
    } else if line_size == 2 {
        64
    } else if line_size == 3 {
        128
    } else if line_size == 4 {
        256
    } else if line_size == 5 {
        512
    } else if line_size == 6 {
        1024
    } else {
        2048
    }
}

/// The value of the cache size selection register that selects `cache`,
/// where the register held `csselr`.
pub open spec fn selecting(csselr: u64, cache: Cache) -> u64 {
    crate::bits::with_bit(
        crate::bits::with_field(csselr, 1, 0x7, cache.level() as u64),
        0,
        cache.instruction(),
    )
}

impl CacheInfo {
    /// The geometry that the raw content `ccsidr` of the cache geometry
    /// register gives for `cache`. With extended associativity (`ccidx`)
    /// the sets are in bits 32 to 55 and the ways in bits 3 to 23; without,
    /// the sets are in bits 13 to 27 and the ways in bits 3 to 12. The
    /// fields hold sets and ways less one. The line size is in bits 0 to 2.
    pub open spec fn decoded(cache: Cache, ccsidr: u64, ccidx: bool) -> CacheInfo {
        CacheInfo {
            cache,
            linesize: line_bytes(field(ccsidr, 0, 0x7)) as u16,
            num_ways: if ccidx {
                (field(ccsidr, 3, 0x1f_ffff) + 1) as u32
            } else {
                (field(ccsidr, 3, 0x3ff) + 1) as u32
            },
            num_sets: if ccidx {
                (field(ccsidr, 32, 0xff_ffff) + 1) as u32
            } else {
                (field(ccsidr, 13, 0x7fff) + 1) as u32
            },
        }
    }

    /// Well-formed: the line size is a power of two from 16 to 2048 bytes,
    /// and there is at least one way and one set.
    pub open spec fn wf(self) -> bool {
        &&& (self.linesize == 16 || self.linesize == 32 || self.linesize == 64 || self.linesize
            == 128 || self.linesize == 256 || self.linesize == 512 || self.linesize == 1024
            || self.linesize == 2048)
        &&& self.num_ways >= 1
        &&& self.num_sets >= 1
    }

    /// Decodes the geometry of `cache` from a raw value of the cache
    /// geometry register, in the layout that `ccidx` selects.
    pub fn decode(cache: Cache, ccsidr: u64, ccidx: bool) -> (info: Self)
        ensures
            info == Self::decoded(cache, ccsidr, ccidx),
            info.wf(),
    {
        if ccidx {
            let value = CCSIDR_EL1_CCIDX::new_with_raw_value(ccsidr);
            let sets = value.NUM_SETS();
            let ways = value.ASSOCIATIVITY();
            let line = value.LINE_SIZE();
            let info = CacheInfo {
                cache,
                linesize: line_size_bytes(line),
                num_ways: ways + 1,
                num_sets: sets + 1,
            };
            assert(info.linesize == line_bytes(line as u64));
            info
        } else {
            let value = CCSIDR_EL1_NO_CCIDX::new_with_raw_value(ccsidr);
            let sets = value.NUM_SETS();
            let ways = value.ASSOCIATIVITY();
            let line = value.LINE_SIZE();
            let info = CacheInfo {
                cache,
                linesize: line_size_bytes(line),
                num_ways: ways as u32 + 1,
                num_sets: sets as u32 + 1,
            };
            assert(info.linesize == line_bytes(line as u64));
            info
        }
    }

    /// The state after `get` has selected `cache`.
    pub open spec fn selected(cpu: CpuView, cache: Cache) -> CpuView {
        cpu.written(SysReg::CSSELR_EL1, selecting(cpu.read(SysReg::CSSELR_EL1), cache))
    }

    /// What `get` returns where the core has the cache.
    pub open spec fn found(cpu: CpuView, cache: Cache) -> CacheInfo {
        Self::decoded(
            cache,
            Self::selected(cpu, cache).read(SysReg::CCSIDR_EL1),
            field(cpu.read(SysReg::ID_AA64MMFR2_EL1), 20, 0xf) > 0,
        )
    }

    /// The geometry of `cache`, or `None` where the core does not have it.
    ///
    /// Where it does, the cache is selected in the cache size selection
    /// register, and the cache geometry register is decoded in the layout
    /// that the feature register calls for. Where it does not, nothing is
    /// written.
    pub fn get(cpu: &mut Cpu, cache: Cache) -> (r: Option<Self>)
        ensures
            has_cache(old(cpu)@.read(SysReg::CLIDR_EL1), cache) ==> r == Some(
                Self::found(old(cpu)@, cache),
            ) && final(cpu)@ == Self::selected(old(cpu)@, cache) && r.unwrap().wf(),
            !has_cache(old(cpu)@.read(SysReg::CLIDR_EL1), cache) ==> r is None && final(cpu)@
                == old(cpu)@,
    {
        let (idx, icache) = match cache {
            Cache::Instruction { idx } => (idx, true),
            Cache::DataOrUnified { idx } => (idx, false),
        };

        let caches = Caches::get(cpu);
        if idx >= 7 {
            return None;
        }
        let cache_impl = caches.impls[idx as usize];
        if !cache_impl.contains(cache) {
            return None;
        }

        let csselr = CSSELR_EL1::read(cpu);
        let feat_ccidx = ID_AA64MMFR2_EL1::read(cpu).CCIDX();
        CSSELR_EL1::write(cpu, csselr.with_LEVEL(idx).with_InD(icache));

        let ccsidr = cpu.read(SysReg::CCSIDR_EL1);
        Some(Self::decode(cache, ccsidr, feat_ccidx > 0))
    }
}

/// Bytes in a cache line whose size field is `line_size`.
pub fn line_size_bytes(line_size: u8) -> (bytes: u16)
    requires
        line_size <= 7,
    ensures
        bytes == line_bytes(line_size as u64),
{
    let shift = line_size + 4;
    assert(shift <= 11 ==> (1u16 << shift) == if shift == 4 {
        16u16
    } else if shift == 5 {
        32u16
    } else if shift == 6 {
        64u16
    } else if shift == 7 {
        128u16
    } else if shift == 8 {
        256u16
    } else if shift == 9 {
        512u16
    } else if shift == 10 {
        1024u16
    } else if shift == 11 {
        2048u16
    } else {
        1u16 << shift
    }) by (bit_vector);
    1u16 << shift
}

} // verus!
