//! The row that records one slot of the beacon chain.
//!
//! The relational engine behind the store has no unsigned integers, so every
//! `u64` is kept in an `i64` column with the same two's-complement bits and
//! read back through the inverse mapping.
use vstd::prelude::*;

verus! {

/// The value that a `u64` stands as in a signed 64-bit column: the same
/// bits read as a two's-complement integer.
pub open spec fn signed_of(v: u64) -> i64 {
    if v <= i64::MAX as u64 {
        v as i64
    } else {
        (v - 0x1_0000_0000_0000_0000int) as i64
    }
}

/// The `u64` whose bits a signed 64-bit column holds.
pub open spec fn unsigned_of(v: i64) -> u64 {
    if v >= 0 {
        v as u64
    } else {
        (v + 0x1_0000_0000_0000_0000int) as u64
    }
}

fn to_signed(v: u64) -> (r: i64)
    ensures
        r == signed_of(v),
        unsigned_of(r) == v,
{
    if v <= i64::MAX as u64 {
        v as i64
    } else {
        let low: u64 = v - 0x8000_0000_0000_0000u64;
        (low as i64) + i64::MIN
    }
}

fn to_unsigned(v: i64) -> (r: u64)
    ensures
        r == unsigned_of(v),
{
    if v >= 0 {
        v as u64
    } else {
        let low: i64 = v - i64::MIN;
        (low as u64) + 0x8000_0000_0000_0000u64
    }
}

/// A slot row ready to be inserted.
pub struct NewSlot {
    spec: String,
    height: i64,
    validators_count: Option<i64>,
}

impl NewSlot {
    /// The slot's height, as the caller gave it.
    pub closed spec fn height_spec(&self) -> u64 {
        unsigned_of(self.height)
    }

    /// The slot's validator count, as the caller gave it.
    pub closed spec fn validators_count_spec(&self) -> Option<u64> {
        match self.validators_count {
            Some(c) => Some(unsigned_of(c)),
            None => None,
        }
    }

    /// The slot's spec name.
    pub closed spec fn spec_spec(&self) -> Seq<char> {
        self.spec@
    }

    /// The height as it stands in its signed column.
    pub closed spec fn height_column(&self) -> i64 {
        self.height
    }

    /// The validator count as it stands in its signed column.
    pub closed spec fn validators_count_column(&self) -> Option<i64> {
        self.validators_count
    }

    /// Return a new insertable slot.
    pub fn new(spec: String, height: u64, validators_count: Option<usize>) -> (r: NewSlot)
        ensures
            r.spec_spec() == spec@,
            r.height_spec() == height,
            r.height_column() == signed_of(height),
            r.validators_count_spec() == (match validators_count {
                Some(c) => Some(c as u64),
                None => None::<u64>,
            }),
            r.validators_count_column() == (match validators_count {
                Some(c) => Some(signed_of(c as u64)),
                None => None::<i64>,
            }),
    {
        let count = match validators_count {
            Some(c) => Some(to_signed(c as u64)),
            None => None,
        };
        NewSlot { spec, height: to_signed(height), validators_count: count }
    }

    /// Return the slot height.
    pub fn height(&self) -> (r: u64)
        ensures
            r == self.height_spec(),
    {
        to_unsigned(self.height)
    }

    /// Return the slot validator count.
    pub fn validators_count(&self) -> (r: Option<u64>)
        ensures
            r == self.validators_count_spec(),
    {
        match self.validators_count {
            Some(c) => Some(to_unsigned(c)),
            None => None,
        }
    }

    /// Return the slot spec.
    pub fn spec(&self) -> (r: String)
        ensures
            r@ == self.spec_spec(),
    {
        self.spec.clone()
    }

    /// The height column, for the store's row mapping.
    pub fn height_column_value(&self) -> (r: i64)
        ensures
            r == self.height_column(),
    {
        self.height
    }

    /// The validator-count column, for the store's row mapping.
    pub fn validators_count_column_value(&self) -> (r: Option<i64>)
        ensures
            r == self.validators_count_column(),
    {
        self.validators_count
    }
}

} // verus!
