//! The typed values that requests are decoded into and that answers are formatted
//! from. Each lives for one request.

use vstd::prelude::*;

verus! {

/// A 20-byte account address.
#[derive(Clone, Copy, Debug, PartialEq, Eq)]
pub struct Address {
    pub bytes: [u8; 20],
}

impl View for Address {
    type V = Seq<u8>;

    open spec fn view(&self) -> Seq<u8> {
        self.bytes@
    }
}

/// A 32-byte hash, of a block or of a transaction.
#[derive(Clone, Copy, Debug, PartialEq, Eq)]
pub struct H256 {
    pub bytes: [u8; 32],
}

impl View for H256 {
    type V = Seq<u8>;

    open spec fn view(&self) -> Seq<u8> {
        self.bytes@
    }
}

/// An unsigned 256-bit amount, as four 64-bit limbs, the least significant first.
#[derive(Clone, Copy, Debug, PartialEq, Eq)]
pub struct Uint256 {
    pub limbs: [u64; 4],
}

/// The number that four limbs stand for.
pub open spec fn limbs_value(limbs: Seq<u64>) -> nat {
    (limbs[0] as nat) + (limbs[1] as nat) * 0x1_0000_0000_0000_0000 + (limbs[2] as nat)
        * 0x1_0000_0000_0000_0000_0000_0000_0000_0000 + (limbs[3] as nat)
        * 0x1_0000_0000_0000_0000_0000_0000_0000_0000_0000_0000_0000_0000
}

/// The first number that 256 bits do not hold.
pub open spec fn uint256_limit() -> nat {
    0x1_0000_0000_0000_0000_0000_0000_0000_0000_0000_0000_0000_0000_0000_0000_0000_0000nat
}

impl View for Uint256 {
    type V = nat;

    open spec fn view(&self) -> nat {
        limbs_value(self.limbs@)
    }
}

impl Uint256 {
    /// The amount zero.
    pub fn zero() -> (r: Uint256)
        ensures
            r@ == 0,
    {
        Uint256 { limbs: [0, 0, 0, 0] }
    }

    /// The amount `value`.
    pub fn from_u64(value: u64) -> (r: Uint256)
        ensures
            r@ == value,
    {
        Uint256 { limbs: [value, 0, 0, 0] }
    }

    /// The amount `value`.
    pub fn from_u128(value: u128) -> (r: Uint256)
        ensures
            r@ == value,
    {
        let low: u64 = (value & 0xffff_ffff_ffff_ffff) as u64;
        let high: u64 = (value >> 64) as u64;
        assert(value == (value & 0xffff_ffff_ffff_ffff) + (value >> 64)
            * 0x1_0000_0000_0000_0000) by (bit_vector);
        assert((value & 0xffff_ffff_ffff_ffff) <= 0xffff_ffff_ffff_ffff) by (bit_vector);
        assert((value >> 64) <= 0xffff_ffff_ffff_ffff) by (bit_vector);
        Uint256 { limbs: [low, high, 0, 0] }
    }

    /// The amount with one more hex digit at its end: sixteen times the amount
    /// and `digit` more. `None` where `digit` is no hex digit's value, or 256 bits
    /// do not hold the result.
    pub fn push_hex_digit(&self, digit: u8) -> (r: Option<Uint256>)
        ensures
            r matches Some(v) ==> v@ == 16 * self@ + digit,
            r is Some <==> digit < 16 && 16 * self@ + digit < uint256_limit(),
    {
        if digit >= 16 {
            return None;
        }
        let l0: u64 = self.limbs[0];
        let l1: u64 = self.limbs[1];
        let l2: u64 = self.limbs[2];
        let l3: u64 = self.limbs[3];
        let d: u64 = digit as u64;
        assert((l0 << 4 | d) + (l0 >> 60) * 0x1_0000_0000_0000_0000 == 16 * l0 + d) by (bit_vector)
            requires
                d < 16,
        ;
        assert((l1 << 4 | l0 >> 60) + (l1 >> 60) * 0x1_0000_0000_0000_0000 == 16 * l1 + (l0 >> 60))
            by (bit_vector);
        assert((l2 << 4 | l1 >> 60) + (l2 >> 60) * 0x1_0000_0000_0000_0000 == 16 * l2 + (l1 >> 60))
            by (bit_vector);
        assert((l3 << 4 | l2 >> 60) + (l3 >> 60) * 0x1_0000_0000_0000_0000 == 16 * l3 + (l2 >> 60))
            by (bit_vector);
        assert(l3 >> 60 == 0 <==> l3 < 0x1000_0000_0000_0000) by (bit_vector);
        if l3 >> 60 != 0 {
            return None;
        }
        let limbs: [u64; 4] = [l0 << 4 | d, l1 << 4 | l0 >> 60, l2 << 4 | l1 >> 60, l3 << 4 | l2 >> 60];
        Some(Uint256 { limbs })
    }
}

/// Which block a request is about.
#[derive(Clone, Copy, Debug, PartialEq, Eq, Structural)]
pub enum BlockTag {
    Latest,
    Finalized,
    Safe,
    Earliest,
    Pending,
    ExactNumber(u64),
}

/// The options of a message call. They travel from the request to the backend as
/// they are: a field that is present is well formed by its type, and what the
/// fields mean is the backend's business.
#[derive(Clone, Debug, PartialEq, Eq)]
pub struct CallOptions {
    pub from: Option<Address>,
    pub to: Address,
    pub gas: Option<Uint256>,
    pub gas_price: Option<Uint256>,
    pub value: Option<Uint256>,
    pub data: Option<Vec<u8>>,
}

/// What call options hold, as mathematical values.
pub struct CallOptionsView {
    pub from: Option<Seq<u8>>,
    pub to: Seq<u8>,
    pub gas: Option<nat>,
    pub gas_price: Option<nat>,
    pub value: Option<nat>,
    pub data: Option<Seq<u8>>,
}

/// An optional value with the value, if there is one, replaced by its view.
pub open spec fn view_some<T: View>(o: Option<T>) -> Option<T::V> {
    match o {
        Some(v) => Some(v@),
        None => None,
    }
}

impl View for CallOptions {
    type V = CallOptionsView;

    open spec fn view(&self) -> CallOptionsView {
        CallOptionsView {
            from: view_some(self.from),
            to: self.to@,
            gas: view_some(self.gas),
            gas_price: view_some(self.gas_price),
            value: view_some(self.value),
            data: view_some(self.data),
        }
    }
}

/// The transactions of a block: their full bodies, or only their hashes.
#[derive(Clone, Debug, PartialEq, Eq)]
pub enum Transactions<T> {
    Full(Vec<T>),
    Hashes(Vec<H256>),
}

/// A block as the backend hands it out. All that is read of it is its list of
/// transactions; the rest passes as it is.
#[derive(Clone, Debug, PartialEq, Eq)]
pub struct Block<H, T> {
    pub header: H,
    pub transactions: Transactions<T>,
}

/// A result with its success value, if there is one inside, replaced by that
/// value's view.
pub open spec fn view_ok_some<T: View, E>(r: Result<Option<T>, E>) -> Result<Option<T::V>, E> {
    match r {
        Ok(v) => Ok(view_some(v)),
        Err(e) => Err(e),
    }
}

/// A result with its success value replaced by that value's view.
pub open spec fn view_ok<T: View, E>(r: Result<T, E>) -> Result<T::V, E> {
    match r {
        Ok(v) => Ok(v@),
        Err(e) => Err(e),
    }
}

} // verus!
