//! Plain values of the chain: addresses, transaction hashes, amounts and
//! contract-call arguments.

use vstd::prelude::*;

verus! {

/// A 20-byte account or contract address.
#[derive(Clone, Copy, Debug, PartialEq, Eq, Hash)]
pub struct Address {
    pub bytes: [u8; 20],
}

/// A 32-byte transaction hash.
#[derive(Clone, Copy, Debug, PartialEq, Eq, Hash)]
pub struct TxHash {
    pub bytes: [u8; 32],
}

/// An unsigned 256-bit amount of native currency, as two 128-bit halves.
#[derive(Clone, Copy, Debug, PartialEq, Eq, Structural)]
pub struct Amount {
    pub hi: u128,
    pub lo: u128,
}

/// 2^128, the weight of the upper half of an [`Amount`].
pub open spec fn half_base() -> nat {
    0x1_0000_0000_0000_0000_0000_0000_0000_0000nat
}

/// The largest value an [`Amount`] can hold, 2^256 - 1.
pub open spec fn amount_max() -> nat {
    (half_base() * half_base() - 1) as nat
}

impl Amount {
    /// The number this amount stands for.
    pub open spec fn value(self) -> nat {
        self.hi as nat * half_base() + self.lo as nat
    }

    /// The amount zero.
    pub fn zero() -> (r: Amount)
        ensures
            r.value() == 0,
            r == (Amount { hi: 0, lo: 0 }),
    {
        Amount { hi: 0, lo: 0 }
    }

    /// The amount that stands for `n`.
    pub fn from_u128(n: u128) -> (r: Amount)
        ensures
            r.value() == n,
            r == (Amount { hi: 0, lo: n }),
    {
        Amount { hi: 0, lo: n }
    }

    /// Whether this amount is zero.
    pub fn is_zero(&self) -> (r: bool)
        ensures
            r == (self.value() == 0),
    {
        self.hi == 0 && self.lo == 0
    }

    /// The sum of two amounts, or `None` where it exceeds 256 bits.
    pub fn checked_add(self, other: Amount) -> (r: Option<Amount>)
        ensures
            r is Some <==> self.value() + other.value() <= amount_max(),
            r is Some ==> r->0.value() == self.value() + other.value(),
    {
        proof {
            lemma_amount_bounds(self);
            lemma_amount_bounds(other);
        }
        let low: Option<u128> = self.lo.checked_add(other.lo);
        let lo: u128 = match low {
            Some(v) => v,
            None => self.lo.wrapping_add(other.lo),
        };
        let carry: u128 = if low.is_some() { 0 } else { 1 };
        match self.hi.checked_add(other.hi) {
            None => None,
            Some(h) => match h.checked_add(carry) {
                None => None,
                Some(hi) => Some(Amount { hi, lo }),
            },
        }
    }
}

/// Every amount is at most [`amount_max`], and each of its halves is below
/// [`half_base`].
pub proof fn lemma_amount_bounds(a: Amount)
    ensures
        a.value() <= amount_max(),
        a.lo < half_base(),
        a.hi < half_base(),
{
    assert(a.hi as nat * half_base() <= (half_base() - 1) * half_base()) by (nonlinear_arith)
        requires
            a.hi as nat <= half_base() - 1,
    ;
    assert((half_base() - 1) * half_base() + half_base() == half_base() * half_base())
        by (nonlinear_arith);
}

/// Two amounts that stand for the same number are the same amount.
pub proof fn lemma_amount_is_its_value(a: Amount, b: Amount)
    requires
        a.value() == b.value(),
    ensures
        a == b,
{
    lemma_amount_bounds(a);
    lemma_amount_bounds(b);
    if a.hi < b.hi {
        assert(a.hi as nat * half_base() + half_base() <= b.hi as nat * half_base())
            by (nonlinear_arith)
            requires
                a.hi as nat + 1 <= b.hi as nat,
        ;
    } else if b.hi < a.hi {
        assert(b.hi as nat * half_base() + half_base() <= a.hi as nat * half_base())
            by (nonlinear_arith)
            requires
                b.hi as nat + 1 <= a.hi as nat,
        ;
    }
}

/// An argument or a result of a contract call.
#[derive(Debug, PartialEq, Eq)]
pub enum Value {
    /// A boolean.
    Bool(bool),
    /// An unsigned integer and its width in bits.
    Uint(Amount, usize),
    /// A signed integer in two's complement and its width in bits.
    Int(Amount, usize),
    /// A word of which the first `usize` bytes count.
    FixedBytes([u8; 32], usize),
    /// An address.
    Address(Address),
    /// A function pointer: an address and a selector.
    Function([u8; 24]),
    /// A byte string.
    Bytes(Vec<u8>),
    /// A text.
    Text(String),
    /// A dynamic array.
    Array(Vec<Value>),
    /// An array of fixed length.
    FixedArray(Vec<Value>),
    /// A tuple.
    Tuple(Vec<Value>),
}

} // verus!
