//! 128-bit request identifiers.

use vstd::prelude::*;

use crate::rpc;
use crate::text::{hex_digits, lemma_hex_digits_mod, lemma_hex_digits_split, pow16, push_hex};

verus! {

/// A request identifier: one 128-bit number, made of a high and a low half.
#[derive(Clone, Copy)]
pub struct Uuid {
    raw: u128,
}

impl View for Uuid {
    type V = u128;

    closed spec fn view(&self) -> u128 {
        self.raw
    }
}

/// The number whose high 64 bits are `hi` and low 64 bits are `lo`.
pub open spec fn join_halves(hi: u64, lo: u64) -> int {
    hi * 0x1_0000_0000_0000_0000int + lo
}

impl Uuid {
    /// The identifier whose high half is `hi` and low half is `lo`.
    pub fn new(hi: u64, lo: u64) -> (u: Self)
        ensures
            u@ == join_halves(hi, lo),
    {
        let h: u128 = hi as u128;
        let l: u128 = lo as u128;
        let raw: u128 = (h << 64) | l;
        assert((h << 64) | l == h * 0x1_0000_0000_0000_0000u128 + l) by (bit_vector)
            requires
                h < 0x1_0000_0000_0000_0000u128,
                l < 0x1_0000_0000_0000_0000u128,
        ;
        Self { raw }
    }

    /// The high and the low half of the identifier.
    pub fn split(&self) -> (halves: (u64, u64))
        ensures
            halves.0 == self@ / 0x1_0000_0000_0000_0000u128,
            halves.1 == self@ % 0x1_0000_0000_0000_0000u128,
    {
        let hi: u128 = self.raw >> 64;
        let lo: u128 = self.raw & 0xffff_ffff_ffff_ffff;
        let r: u128 = self.raw;
        assert(hi < 0x1_0000_0000_0000_0000u128 && lo < 0x1_0000_0000_0000_0000u128
            && hi == r / 0x1_0000_0000_0000_0000u128 && lo == r % 0x1_0000_0000_0000_0000u128)
            by (bit_vector)
            requires
                hi == r >> 64,
                lo == r & 0xffff_ffff_ffff_ffff,
        ;
        (hi as u64, lo as u64)
    }

    /// The identifier as 32 lowercase hexadecimal digits.
    pub fn to_string(&self) -> (s: String)
        ensures
            s@ == hex_digits(self@ as nat, 32),
    {
        let mut s = String::new();
        push_hex(&mut s, self.raw, 32);
        s
    }
}

impl From<&rpc::Uuid> for Uuid {
    fn from(g: &rpc::Uuid) -> (u: Self)
        ensures
            u@ == join_halves(g.hi, g.lo),
    {
        Self::new(g.hi, g.lo)
    }
}

impl vstd::std_specs::convert::FromSpecImpl<&rpc::Uuid> for Uuid {
    open spec fn obeys_from_spec() -> bool {
        true
    }

    closed spec fn from_spec(g: &rpc::Uuid) -> Self {
        Uuid { raw: join_halves(g.hi, g.lo) as u128 }
    }
}

impl From<Uuid> for rpc::Uuid {
    fn from(d: Uuid) -> (g: Self)
        ensures
            g.hi == d@ / 0x1_0000_0000_0000_0000u128,
            g.lo == d@ % 0x1_0000_0000_0000_0000u128,
    {
        let (hi, lo) = d.split();
        rpc::Uuid { hi, lo }
    }
}

impl vstd::std_specs::convert::FromSpecImpl<Uuid> for rpc::Uuid {
    open spec fn obeys_from_spec() -> bool {
        true
    }

    open spec fn from_spec(d: Uuid) -> Self {
        rpc::Uuid {
            hi: (d@ / 0x1_0000_0000_0000_0000u128) as u64,
            lo: (d@ % 0x1_0000_0000_0000_0000u128) as u64,
        }
    }
}

/// Splitting an identifier made of two halves gives back those halves.
pub proof fn lemma_split_undoes_new(hi: u64, lo: u64)
    ensures
        join_halves(hi, lo) < 0x1_0000_0000_0000_0000_0000_0000_0000_0000int,
        (join_halves(hi, lo) as u128) / 0x1_0000_0000_0000_0000u128 == hi,
        (join_halves(hi, lo) as u128) % 0x1_0000_0000_0000_0000u128 == lo,
{
    let h = hi as u128;
    let l = lo as u128;
    assert(h * 0x1_0000_0000_0000_0000u128 + l <= u128::MAX) by (nonlinear_arith)
        requires
            h < 0x1_0000_0000_0000_0000u128,
            l < 0x1_0000_0000_0000_0000u128,
    ;
    assert(((h * 0x1_0000_0000_0000_0000u128 + l) as u128) / 0x1_0000_0000_0000_0000u128 == h
        && ((h * 0x1_0000_0000_0000_0000u128 + l) as u128) % 0x1_0000_0000_0000_0000u128 == l)
        by (bit_vector)
        requires
            h < 0x1_0000_0000_0000_0000u128,
            l < 0x1_0000_0000_0000_0000u128,
    ;
}

/// The text of an identifier is the 16 hexadecimal digits of its high half followed by the
/// 16 of its low half.
pub proof fn lemma_text_is_halves(hi: u64, lo: u64)
    ensures
        hex_digits(join_halves(hi, lo) as nat, 32) == hex_digits(hi as nat, 16) + hex_digits(
            lo as nat,
            16,
        ),
{
    let v = join_halves(hi, lo) as nat;
    reveal_with_fuel(pow16, 17);
    assert(pow16(16) == 0x1_0000_0000_0000_0000nat);
    vstd::arithmetic::div_mod::lemma_fundamental_div_mod_converse(
        v as int,
        0x1_0000_0000_0000_0000int,
        hi as int,
        lo as int,
    );
    lemma_hex_digits_split(v, 16, 16);
    vstd::arithmetic::div_mod::lemma_small_mod(lo as nat, 0x1_0000_0000_0000_0000nat);
    lemma_hex_digits_mod(v, lo as nat, 16);
}

/// Joining the two halves of an identifier gives back the identifier.
pub proof fn lemma_new_undoes_split(v: u128)
    ensures
        join_halves(
            (v / 0x1_0000_0000_0000_0000u128) as u64,
            (v % 0x1_0000_0000_0000_0000u128) as u64,
        ) == v,
{
    assert((v / 0x1_0000_0000_0000_0000u128) * 0x1_0000_0000_0000_0000u128
        + v % 0x1_0000_0000_0000_0000u128 == v) by (bit_vector);
}

} // verus!
