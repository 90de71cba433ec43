//! What the calls of the pool module cost.
//!
//! Each call has a fixed cost of its own and makes a fixed number of reads and
//! writes of the store. Its weight is the sum of the three, held at the largest
//! 64-bit number where it would be more.

use vstd::prelude::*;
use core::marker::PhantomData;

verus! {

/// A measure of the cost of a call.
pub type Weight = u64;

/// What one read and one write of the store cost.
#[derive(Clone, Copy, Debug, PartialEq, Eq, Structural)]
pub struct RuntimeDbWeight {
    /// The cost of one read.
    pub read: Weight,
    /// The cost of one write.
    pub write: Weight,
}

/// `a + b`, held at the largest 64-bit number.
pub open spec fn saturating_sum(a: u64, b: u64) -> u64 {
    if a + b > u64::MAX {
        u64::MAX
    } else {
        (a + b) as u64
    }
}

/// `a * b`, held at the largest 64-bit number.
pub open spec fn saturating_product(a: u64, b: u64) -> u64 {
    if a * b > u64::MAX {
        u64::MAX
    } else {
        (a * b) as u64
    }
}

/// The weight of a call that costs `base` by itself and makes `reads` reads and
/// `writes` writes of a store with the costs `db`.
pub open spec fn call_weight(base: Weight, reads: u64, writes: u64, db: RuntimeDbWeight) -> Weight {
    saturating_sum(
        saturating_sum(base, saturating_product(db.read, reads)),
        saturating_product(db.write, writes),
    )
}

/// `a * b`, held at the largest 64-bit number.
pub fn saturating_mul(a: u64, b: u64) -> (product: u64)
    ensures
        product == saturating_product(a, b),
{
    match a.checked_mul(b) {
        Some(p) => p,
        None => u64::MAX,
    }
}

impl RuntimeDbWeight {
    /// The cost of `r` reads.
    pub fn reads(self, r: u64) -> (w: Weight)
        ensures
            w == saturating_product(self.read, r),
    {
        saturating_mul(self.read, r)
    }

    /// The cost of `w` writes.
    pub fn writes(self, w: u64) -> (cost: Weight)
        ensures
            cost == saturating_product(self.write, w),
    {
        saturating_mul(self.write, w)
    }
}

/// Computes the weight of a call from its own cost and its reads and writes.
pub fn weigh(base: Weight, reads: u64, writes: u64, db: RuntimeDbWeight) -> (w: Weight)
    ensures
        w == call_weight(base, reads, writes, db),
{
    base.saturating_add(db.reads(reads)).saturating_add(db.writes(writes))
}

/// A store whose costs are known.
pub trait DbWeight {
    /// The costs of the store.
    spec fn costs() -> RuntimeDbWeight;

    /// The costs of the store.
    fn get() -> (db: RuntimeDbWeight)
        ensures
            db == Self::costs(),
    ;
}

/// The store for which the costs were measured: 25 microseconds for a read
/// and 100 for a write, a thousand units to the nanosecond.
pub struct RocksDbWeight;

impl DbWeight for RocksDbWeight {
    open spec fn costs() -> RuntimeDbWeight {
        RuntimeDbWeight { read: 25_000_000, write: 100_000_000 }
    }

    fn get() -> (db: RuntimeDbWeight) {
        RuntimeDbWeight { read: 25_000_000, write: 100_000_000 }
    }
}

/// The weights of the pool module's calls.
pub trait WeightInfo {
    /// The costs of the store that the calls read and write.
    spec fn db() -> RuntimeDbWeight;

    /// The weight of creating a pool.
    fn create_pool() -> (w: Weight)
        ensures
            w == call_weight(244_321_000, 11, 13, Self::db()),
    ;

    /// The weight of adding liquidity.
    fn add_liquidity() -> (w: Weight)
        ensures
            w == call_weight(230_146_000, 9, 8, Self::db()),
    ;

    /// The weight of removing liquidity.
    fn remove_liquidity() -> (w: Weight)
        ensures
            w == call_weight(231_282_000, 8, 7, Self::db()),
    ;

    /// The weight of selling.
    fn sell() -> (w: Weight)
        ensures
            w == call_weight(163_175_000, 5, 4, Self::db()),
    ;

    /// The weight of buying.
    fn buy() -> (w: Weight)
        ensures
            w == call_weight(162_533_000, 5, 4, Self::db()),
    ;
}

/// The measured weights, on the store `T`.
pub struct HackHydraWeight<T>(pub PhantomData<T>);

impl<T: DbWeight> WeightInfo for HackHydraWeight<T> {
    open spec fn db() -> RuntimeDbWeight {
        T::costs()
    }

    fn create_pool() -> (w: Weight) {
        weigh(244_321_000, 11, 13, T::get())
    }

    fn add_liquidity() -> (w: Weight) {
        weigh(230_146_000, 9, 8, T::get())
    }

    fn remove_liquidity() -> (w: Weight) {
        weigh(231_282_000, 8, 7, T::get())
    }

    fn sell() -> (w: Weight) {
        weigh(163_175_000, 5, 4, T::get())
    }

    fn buy() -> (w: Weight) {
        weigh(162_533_000, 5, 4, T::get())
    }
}

impl WeightInfo for () {
    open spec fn db() -> RuntimeDbWeight {
        RocksDbWeight::costs()
    }

    fn create_pool() -> (w: Weight) {
        weigh(244_321_000, 11, 13, RocksDbWeight::get())
    }

    fn add_liquidity() -> (w: Weight) {
        weigh(230_146_000, 9, 8, RocksDbWeight::get())
    }

    fn remove_liquidity() -> (w: Weight) {
        weigh(231_282_000, 8, 7, RocksDbWeight::get())
    }

    fn sell() -> (w: Weight) {
        weigh(163_175_000, 5, 4, RocksDbWeight::get())
    }

    fn buy() -> (w: Weight) {
        weigh(162_533_000, 5, 4, RocksDbWeight::get())
    }
}

} // verus!
