//! Rendering of numbers and byte strings as text.

use vstd::prelude::*;

verus! {

/// Appends one character to a string (`String::push`).
#[verifier::external_body]
pub(crate) fn push_char(s: &mut String, c: char)
    ensures
        final(s)@ == old(s)@.push(c),
{
    s.push(c);
}

/// The lowercase hexadecimal digit for `d` (below 16).
pub open spec fn hex_char(d: nat) -> char {
    if d < 10 {
        (48 + d) as char
    } else {
        (87 + d) as char
    }
}

/// The last `n` hexadecimal digits of `v`, most significant first, padded with zeros.
pub open spec fn hex_digits(v: nat, n: nat) -> Seq<char>
    decreases n,
{
    if n == 0 {
        Seq::empty()
    } else {
        hex_digits(v / 16, (n - 1) as nat).push(hex_char(v % 16))
    }
}

/// Sixteen to the power `n`.
pub open spec fn pow16(n: nat) -> nat
    decreases n,
{
    if n == 0 {
        1
    } else {
        16 * pow16((n - 1) as nat)
    }
}

/// Powers of sixteen are positive.
pub proof fn lemma_pow16_positive(n: nat)
    ensures
        pow16(n) > 0,
    decreases n,
{
    if n > 0 {
        lemma_pow16_positive((n - 1) as nat);
    }
}

/// The last `m + n` digits of `v` are the last `m` digits of `v / 16^n` followed by the last
/// `n` digits of `v`.
pub proof fn lemma_hex_digits_split(v: nat, m: nat, n: nat)
    ensures
        hex_digits(v, m + n) == hex_digits(v / pow16(n), m) + hex_digits(v, n),
    decreases n,
{
    if n == 0 {
        assert(pow16(0) == 1);
        assert(v / 1 == v);
        assert(hex_digits(v, m) =~= hex_digits(v, m) + Seq::<char>::empty());
    } else {
        let p = pow16((n - 1) as nat);
        lemma_pow16_positive((n - 1) as nat);
        lemma_hex_digits_split(v / 16, m, (n - 1) as nat);
        vstd::arithmetic::div_mod::lemma_div_denominator(v as int, 16, p as int);
        assert((m + n - 1) as nat == m + (n - 1) as nat);
        assert(hex_digits(v, m + n) =~= hex_digits(v / pow16(n), m) + hex_digits(v, n));
    }
}

/// The last `n` digits of a number depend only on its remainder by `16^n`.
pub proof fn lemma_hex_digits_mod(v: nat, w: nat, n: nat)
    requires
        v % pow16(n) == w % pow16(n),
    ensures
        hex_digits(v, n) == hex_digits(w, n),
    decreases n,
{
    if n > 0 {
        let p = pow16((n - 1) as nat);
        lemma_pow16_positive((n - 1) as nat);
        vstd::arithmetic::div_mod::lemma_mod_breakdown(v as int, 16, p as int);
        vstd::arithmetic::div_mod::lemma_mod_breakdown(w as int, 16, p as int);
        let a = (v / 16) % p;
        let c = (w / 16) % p;
        assert(16 * a + v % 16 == 16 * c + w % 16);
        assert(v % 16 == w % 16 && a == c);
        lemma_hex_digits_mod(v / 16, w / 16, (n - 1) as nat);
    }
}

/// The decimal digit for `d` (below 10).
pub open spec fn dec_char(d: nat) -> char {
    (48 + d) as char
}

/// The decimal rendering of `v`, without leading zeros.
pub open spec fn dec_digits(v: nat) -> Seq<char>
    decreases v,
{
    if v < 10 {
        seq![dec_char(v)]
    } else {
        dec_digits(v / 10).push(dec_char(v % 10))
    }
}

fn hex_digit_char(d: u8) -> (c: char)
    requires
        d < 16,
    ensures
        c == hex_char(d as nat),
{
    if d < 10 {
        (48 + d) as char
    } else {
        (87 + d) as char
    }
}

/// Appends the last `n` hexadecimal digits of `v` to `s`.
pub fn push_hex(s: &mut String, v: u128, n: usize)
    ensures
        final(s)@ == old(s)@ + hex_digits(v as nat, n as nat),
    decreases n,
{
    if n > 0 {
        push_hex(s, v / 16, n - 1);
        push_char(s, hex_digit_char((v % 16) as u8));
    }
}

/// Appends the decimal rendering of `v` to `s`.
pub fn push_dec(s: &mut String, v: u8)
    ensures
        final(s)@ == old(s)@ + dec_digits(v as nat),
    decreases v,
{
    if v >= 10 {
        push_dec(s, v / 10);
    }
    push_char(s, (48 + v % 10) as char);
}

/// The lines of the pretty debug rendering of a byte list: one line per byte, indented by
/// four spaces and ended by a comma.
pub open spec fn debug_lines(b: Seq<u8>) -> Seq<char>
    decreases b.len(),
{
    if b.len() == 0 {
        Seq::empty()
    } else {
        debug_lines(b.drop_last()) + "    "@ + dec_digits(b.last() as nat) + ",\n"@
    }
}

/// The pretty debug rendering (`{:#?}`) of a byte list.
pub open spec fn debug_bytes(b: Seq<u8>) -> Seq<char> {
    if b.len() == 0 {
        "[]"@
    } else {
        "[\n"@ + debug_lines(b) + "]"@
    }
}

/// Appends the pretty debug rendering of `b` to `s`.
pub fn push_debug_bytes(s: &mut String, b: &[u8])
    ensures
        final(s)@ == old(s)@ + debug_bytes(b@),
{
    if b.len() == 0 {
        s.append("[]");
        return;
    }
    s.append("[\n");
    let ghost start = old(s)@ + "[\n"@;
    let mut i: usize = 0;
    while i < b.len()
        invariant
            i <= b@.len(),
            s@ == start + debug_lines(b@.take(i as int)),
        decreases b@.len() - i,
    {
        assert(b@.take(i + 1).drop_last() =~= b@.take(i as int));
        s.append("    ");
        push_dec(s, b[i]);
        s.append(",\n");
        i = i + 1;
        assert(s@ =~= start + debug_lines(b@.take(i as int)));
    }
    s.append("]");
    assert(b@.take(b@.len() as int) =~= b@);
    assert(s@ =~= old(s)@ + debug_bytes(b@));
}

} // verus!
