//! The memory image consumed by the prover.
//!
//! The builder folds raw `(address, value)` entries into a dense table:
//! duplicate raw values share one slot in the value table, and each
//! address maps to the slot holding its value. The prover's memory
//! component later reads this table and counts per-address usage.

use vstd::prelude::*;

use std::collections::HashMap;

use crate::extension::{q_from_m31, q_from_parts, QM31};
use crate::field::{m31_of, M31};
use crate::util::next_power_of_two;
use vstd::arithmetic::power2::pow2;

verus! {

broadcast use vstd::std_specs::hash::group_hash_axioms;

/// Bound on the small-value window of the memory configuration.
pub const SMALL_VALUE_SHIFT: u32 = 0x0400_0000;

/// One raw entry of the input memory image.
#[derive(Clone, Copy, Debug)]
pub struct MemEntry {
    /// The address written.
    pub addr: u32,
    /// The value written, as four raw machine words.
    pub val: [u32; 4],
}

/// The window of values the image may store in small form.
#[derive(Clone, Copy, Debug)]
pub struct MemConfig {
    /// The absolute value of the smallest negative value that can be
    /// stored as a small value.
    pub small_min_neg: u32,
    /// The largest value that can be stored as a small value.
    pub small_max: u32,
}

impl MemConfig {
    /// A configuration with the given window; both bounds must stay
    /// within the small-value shift.
    pub fn new(small_min_neg: u32, small_max: u32) -> (r: MemConfig)
        requires
            small_min_neg <= SMALL_VALUE_SHIFT,
            small_max <= SMALL_VALUE_SHIFT,
        ensures
            r.small_min_neg == small_min_neg,
            r.small_max == small_max,
    {
        MemConfig { small_min_neg, small_max }
    }
}

impl Default for MemConfig {
    /// The default window: ten bits on both sides.
    fn default() -> (r: MemConfig)
        ensures
            r.small_min_neg == 0x3ff,
            r.small_max == 0x3ff,
    {
        MemConfig { small_min_neg: 0x3ff, small_max: 0x3ff }
    }
}

/// The raw words of a value packed into one dedup key.
pub open spec fn key_of(val: [u32; 4]) -> u128 {
    (val[0] + val[1] * 0x1_0000_0000 + val[2] * 0x1_0000_0000_0000_0000
        + val[3] * 0x1_0000_0000_0000_0000_0000_0000) as u128
}

/// The field value a raw entry denotes: each word reduced into the base
/// field, assembled into one extension element.
pub open spec fn q_of_val(val: [u32; 4]) -> QM31 {
    q_from_parts(
        m31_of(val[0] as int),
        m31_of(val[1] as int),
        m31_of(val[2] as int),
        m31_of(val[3] as int),
    )
}

/// A value of the memory image.
#[derive(Clone, Copy, PartialEq, Eq, Structural, Debug)]
pub struct MemoryValue(pub QM31);

/// The built memory image: a dense address table over a deduplicated
/// value table, with a cache of instruction words.
pub struct Memory {
    /// The small-value window.
    pub config: MemConfig,
    /// For each address, the slot of its value in the value table.
    pub address_to_value_index: Vec<usize>,
    /// Instruction words already read, by address.
    pub inst_cache: HashMap<u32, u64>,
    /// The deduplicated value table.
    pub f31_values: Vec<QM31>,
}

impl Memory {
    /// Every address points into the value table, and every stored
    /// value is reduced.
    pub open spec fn wf(self) -> bool {
        &&& forall|i: int|
            0 <= i < self.address_to_value_index@.len()
                ==> (#[trigger] self.address_to_value_index@[i]) < self.f31_values@.len()
        &&& forall|i: int|
            0 <= i < self.f31_values@.len() ==> (#[trigger] self.f31_values@[i]).wf()
    }

    /// The value stored at an address.
    pub fn get(&self, addr: u32) -> (r: MemoryValue)
        requires
            self.wf(),
            addr < self.address_to_value_index@.len(),
        ensures
            r.0 == self.f31_values@[self.address_to_value_index@[addr as int] as int],
            r.0.wf(),
    {
        let f31_values_index: usize = self.address_to_value_index[addr as usize];
        MemoryValue(self.f31_values[f31_values_index])
    }

    /// The slot of the value stored at an address.
    pub fn get_raw_id(&self, addr: u32) -> (r: usize)
        requires
            addr < self.address_to_value_index@.len(),
        ensures
            r == self.address_to_value_index@[addr as int],
    {
        self.address_to_value_index[addr as usize]
    }

    /// The cached instruction word at an address, if one was read.
    pub fn get_inst(&self, addr: u32) -> (r: Option<u64>)
        ensures
            r == (if self.inst_cache@.contains_key(addr) {
                Some(self.inst_cache@[addr])
            } else {
                Option::<u64>::None
            }),
    {
        match self.inst_cache.get(&addr) {
            Some(v) => Some(*v),
            None => None,
        }
    }

    /// A single machine word as a memory value.
    pub fn value_from_f31(&self, value: u32) -> (r: MemoryValue)
        ensures
            r.0 == q_from_m31(m31_of(value as int)),
            r.0.wf(),
    {
        MemoryValue(QM31::from_m31(M31::new(value)))
    }

    /// The values of all addresses in order, padded with zero to the
    /// next power of two.
    pub fn iter_values(&self) -> (r: Vec<MemoryValue>)
        requires
            self.wf(),
            1 <= self.address_to_value_index@.len() <= 0x1_0000_0000,
            self.address_to_value_index@.len() <= usize::MAX / 2,
        ensures
            r@.len() >= self.address_to_value_index@.len(),
            forall|i: int|
                0 <= i < self.address_to_value_index@.len() ==> (#[trigger] r@[i]).0
                    == self.f31_values@[self.address_to_value_index@[i] as int],
            forall|i: int|
                self.address_to_value_index@.len() <= i < r@.len() ==> (#[trigger] r@[i]).0
                    == crate::extension::q_zero(),
            forall|i: int| 0 <= i < r@.len() ==> (#[trigger] r@[i]).0.wf(),
            exists|lg: nat|
                (#[trigger] pow2(lg)) == r@.len() && (lg > 0 ==> pow2((lg - 1) as nat)
                    < self.address_to_value_index@.len()),
    {
        let n = self.address_to_value_index.len();
        let (size, log) = next_power_of_two(n);
        proof {
            assert(size == pow2(log as nat) && (log > 0 ==> pow2((log - 1) as nat) < n));
        }
        let mut values: Vec<MemoryValue> = Vec::new();
        let mut addr: usize = 0;
        while addr < n
            invariant
                self.wf(),
                addr <= n,
                n == self.address_to_value_index@.len(),
                n <= 0x1_0000_0000,
                values@.len() == addr,
                forall|i: int|
                    0 <= i < addr ==> (#[trigger] values@[i]).0
                        == self.f31_values@[self.address_to_value_index@[i] as int],
                forall|i: int| 0 <= i < addr ==> (#[trigger] values@[i]).0.wf(),
            decreases n - addr,
        {
            values.push(self.get(addr as u32));
            addr = addr + 1;
        }
        while values.len() < size
            invariant
                self.wf(),
                n == self.address_to_value_index@.len(),
                size == pow2(log as nat),
                log > 0 ==> pow2((log - 1) as nat) < n,
                n <= values@.len() <= size,
                forall|i: int|
                    0 <= i < n ==> (#[trigger] values@[i]).0
                        == self.f31_values@[self.address_to_value_index@[i] as int],
                forall|i: int|
                    n <= i < values@.len() ==> (#[trigger] values@[i]).0
                        == crate::extension::q_zero(),
                forall|i: int| 0 <= i < values@.len() ==> (#[trigger] values@[i]).0.wf(),
            decreases size - values.len(),
        {
            values.push(MemoryValue(QM31::zero()));
        }
        proof {
            assert(values@.len() == pow2(log as nat) && (log > 0 ==> pow2((log - 1) as nat)
                < self.address_to_value_index@.len()));
        }
        values
    }
}

/// A spec-level image of the builder's state: the address table, the
/// value table and the dedup cache.
pub ghost struct MemSnapshot {
    /// For each address, the slot of its value.
    pub addr_to_id: Seq<usize>,
    /// The deduplicated value table.
    pub values: Seq<QM31>,
    /// For each raw value seen, the slot it was assigned.
    pub cache: Map<u128, usize>,
}

/// The empty builder state.
pub open spec fn mem_snapshot_empty() -> MemSnapshot {
    MemSnapshot { addr_to_id: Seq::empty(), values: Seq::empty(), cache: Map::empty() }
}

/// The address table after one address is set: the table grows with
/// zero slots until the address is in bounds, then the address's slot
/// is written.
pub open spec fn addr_store(a: Seq<usize>, addr: u32, id: usize) -> Seq<usize> {
    if (addr as int) < a.len() {
        a.update(addr as int, id)
    } else {
        (a + Seq::new((addr + 1 - a.len()) as nat, |i: int| 0usize)).update(addr as int, id)
    }
}

/// One entry folded into the builder state: a fresh raw value is pushed
/// and remembered, a repeated one reuses its slot; either way the
/// entry's address is pointed at that slot.
pub open spec fn mem_step(s: MemSnapshot, e: MemEntry) -> MemSnapshot {
    let k = key_of(e.val);
    if s.cache.dom().contains(k) {
        MemSnapshot {
            addr_to_id: addr_store(s.addr_to_id, e.addr, s.cache[k]),
            values: s.values,
            cache: s.cache,
        }
    } else {
        MemSnapshot {
            addr_to_id: addr_store(s.addr_to_id, e.addr, s.values.len() as usize),
            values: s.values.push(q_of_val(e.val)),
            cache: s.cache.insert(k, s.values.len() as usize),
        }
    }
}

/// All entries folded into the builder state, in order.
pub open spec fn mem_fold(s: MemSnapshot, entries: Seq<MemEntry>) -> MemSnapshot
    decreases entries.len(),
{
    if entries.len() == 0 {
        s
    } else {
        mem_step(mem_fold(s, entries.drop_last()), entries.last())
    }
}

/// Builds a `Memory` by folding raw entries, deduplicating values.
pub struct MemoryBuilder {
    /// The memory under construction.
    mem: Memory,
    /// For each raw value seen, the slot it was assigned.
    felt31_id_cache: HashMap<u128, usize>,
}

impl MemoryBuilder {
    /// The builder's state as a snapshot.
    pub closed spec fn snap(self) -> MemSnapshot {
        MemSnapshot {
            addr_to_id: self.mem.address_to_value_index@,
            values: self.mem.f31_values@,
            cache: self.felt31_id_cache@,
        }
    }

    /// The memory under construction.
    pub closed spec fn spec_mem(self) -> Memory {
        self.mem
    }

    /// The builder is consistent: the memory is well formed and the
    /// cache points into the value table.
    pub closed spec fn wf(self) -> bool {
        &&& self.mem.wf()
        &&& forall|k: u128|
            self.felt31_id_cache@.dom().contains(k) ==> (#[trigger] self.felt31_id_cache@[k])
                < self.mem.f31_values@.len()
    }

    /// An empty builder with the given configuration.
    pub fn new(config: MemConfig) -> (r: MemoryBuilder)
        ensures
            r.wf(),
            r.snap() == mem_snapshot_empty(),
            r.spec_mem().config == config,
            r.spec_mem().inst_cache@ == Map::<u32, u64>::empty(),
    {
        let r = MemoryBuilder {
            mem: Memory {
                config,
                address_to_value_index: Vec::new(),
                inst_cache: HashMap::new(),
                f31_values: Vec::new(),
            },
            felt31_id_cache: HashMap::new(),
        };
        proof {
            assert(r.snap().addr_to_id =~= mem_snapshot_empty().addr_to_id);
            assert(r.snap().values =~= mem_snapshot_empty().values);
            assert(r.snap().cache =~= mem_snapshot_empty().cache);
        }
        r
    }

    /// Fold a list of raw entries into a builder, deduplicating values
    /// and pointing each address at its value's slot; a later entry for
    /// the same address wins.
    pub fn from_iter(config: MemConfig, entries: &Vec<MemEntry>) -> (r: MemoryBuilder)
        requires
            forall|i: int|
                0 <= i < entries@.len() ==> (#[trigger] entries@[i]).addr < 0xffff_fff0u32,
        ensures
            r.wf(),
            r.snap() == mem_fold(mem_snapshot_empty(), entries@),
            r.spec_mem().config == config,
            r.spec_mem().inst_cache@ == Map::<u32, u64>::empty(),
    {
        let mut builder = MemoryBuilder::new(config);
        let n = entries.len();
        let mut i: usize = 0;
        proof {
            assert(entries@.subrange(0, 0) =~= Seq::<MemEntry>::empty());
        }
        while i < n
            invariant
                builder.wf(),
                i <= n,
                n == entries@.len(),
                forall|j: int|
                    0 <= j < entries@.len() ==> (#[trigger] entries@[j]).addr < 0xffff_fff0u32,
                builder.snap() == mem_fold(mem_snapshot_empty(), entries@.subrange(0, i as int)),
                builder.spec_mem().config == config,
                builder.spec_mem().inst_cache@ == Map::<u32, u64>::empty(),
            decreases n - i,
        {
            let ghost prefix = entries@.subrange(0, i as int);
            let entry = entries[i];
            let key = pack_val(&entry.val);
            let id: usize = match builder.felt31_id_cache.get(&key) {
                Some(existing) => *existing,
                None => {
                    let fresh = builder.mem.f31_values.len();
                    let value = QM31::from_parts(
                        M31::new(entry.val[0]),
                        M31::new(entry.val[1]),
                        M31::new(entry.val[2]),
                        M31::new(entry.val[3]),
                    );
                    proof {
                        assert(value == q_of_val(entry.val));
                    }
                    builder.mem.f31_values.push(value);
                    builder.felt31_id_cache.insert(key, fresh);
                    fresh
                },
            };
            builder.set(entry.addr, id);
            proof {
                assert(entries@.subrange(0, i + 1).drop_last() =~= prefix);
                assert(entries@.subrange(0, i + 1).last() == entry);
                assert(builder.snap() == mem_step(mem_fold(mem_snapshot_empty(), prefix), entry));
            }
            i = i + 1;
        }
        proof {
            assert(entries@.subrange(0, n as int) =~= entries@);
        }
        builder
    }

    /// Point an address at a slot of the value table, growing the
    /// address table as needed.
    pub fn set(&mut self, addr: u32, index: usize)
        requires
            old(self).wf(),
            index < old(self).spec_mem().f31_values@.len(),
            addr < 0xffff_fff0u32,
        ensures
            final(self).wf(),
            final(self).snap() == (MemSnapshot {
                addr_to_id: addr_store(old(self).snap().addr_to_id, addr, index),
                values: old(self).snap().values,
                cache: old(self).snap().cache,
            }),
            final(self).spec_mem().config == old(self).spec_mem().config,
            final(self).spec_mem().inst_cache == old(self).spec_mem().inst_cache,
    {
        let addr_usize: usize = addr as usize;
        let n = self.mem.address_to_value_index.len();
        if addr_usize >= n {
            while self.mem.address_to_value_index.len() < addr_usize + 1
                invariant
                    n <= self.mem.address_to_value_index@.len() <= addr_usize + 1,
                    addr_usize < 0xffff_fff0usize,
                    forall|i: int|
                        0 <= i < n ==> self.mem.address_to_value_index@[i] == old(
                            self,
                        ).mem.address_to_value_index@[i],
                    n == old(self).mem.address_to_value_index@.len(),
                    forall|i: int|
                        n <= i < self.mem.address_to_value_index@.len()
                            ==> self.mem.address_to_value_index@[i] == 0usize,
                    self.mem.f31_values == old(self).mem.f31_values,
                    self.mem.inst_cache == old(self).mem.inst_cache,
                    self.mem.config == old(self).mem.config,
                    self.felt31_id_cache == old(self).felt31_id_cache,
                decreases addr_usize + 1 - self.mem.address_to_value_index@.len(),
            {
                self.mem.address_to_value_index.push(0usize);
            }
            proof {
                assert(self.mem.address_to_value_index@ =~= old(
                    self,
                ).mem.address_to_value_index@ + Seq::new(
                    (addr + 1 - old(self).mem.address_to_value_index@.len()) as nat,
                    |i: int| 0usize,
                ));
            }
        }
        self.mem.address_to_value_index[addr_usize] = index;
        proof {
            assert(self.mem.address_to_value_index@ =~= addr_store(
                old(self).snap().addr_to_id,
                addr,
                index,
            ));
        }
    }

    /// The instruction word at an address: the first base-field
    /// coordinate of its value, which must be a pure base-field value.
    /// The word read is remembered in the instruction cache.
    pub fn get_inst(&mut self, addr: u32) -> (r: u64)
        requires
            old(self).wf(),
            addr < old(self).spec_mem().address_to_value_index@.len(),
            old(self).spec_mem().inst_cache@.contains_key(addr) || is_base_field(
                old(self).spec_mem().f31_values@[old(
                    self,
                ).spec_mem().address_to_value_index@[addr as int] as int],
            ),
        ensures
            final(self).wf(),
            r == (if old(self).spec_mem().inst_cache@.contains_key(addr) {
                old(self).spec_mem().inst_cache@[addr]
            } else {
                (old(self).spec_mem().f31_values@[old(
                    self,
                ).spec_mem().address_to_value_index@[addr as int] as int].a.a.value) as u64
            }),
            final(self).spec_mem().inst_cache@ == old(self).spec_mem().inst_cache@.insert(
                addr,
                r,
            ),
            final(self).snap() == old(self).snap(),
            final(self).spec_mem().config == old(self).spec_mem().config,
    {
        let cached = match self.mem.inst_cache.get(&addr) {
            Some(v) => Some(*v),
            None => None,
        };
        let r: u64 = match cached {
            Some(v) => v,
            None => {
                let value = self.mem.get(addr);
                value.0.a.a.value as u64
            },
        };
        self.mem.inst_cache.insert(addr, r);
        r
    }

    /// Finish building.
    pub fn build(self) -> (r: Memory)
        ensures
            r == self.spec_mem(),
    {
        self.mem
    }
}

/// A value that lies in the base field: all extension coordinates zero.
pub open spec fn is_base_field(v: QM31) -> bool {
    v.a.b.value == 0 && v.b.a.value == 0 && v.b.b.value == 0
}

/// The raw words of a value packed into one dedup key.
fn pack_val(val: &[u32; 4]) -> (r: u128)
    ensures
        r == key_of(*val),
{
    (val[0] as u128) + (val[1] as u128) * 0x1_0000_0000u128 + (val[2] as u128)
        * 0x1_0000_0000_0000_0000u128 + (val[3] as u128)
        * 0x1_0000_0000_0000_0000_0000_0000u128
}

} // verus!
