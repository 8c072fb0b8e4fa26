//! Checkers decide whether a bucket name is acceptable, and what it becomes.

use vstd::prelude::*;

use crate::status::{Code, Status, StatusView};
use crate::text::{hex_char, hex_digits, lemma_pow16_positive, pow16};

verus! {

/// What a checker gave back, by value.
pub open spec fn check_view(r: Result<String, Status>) -> Result<Seq<char>, StatusView> {
    match r {
        Ok(s) => Ok(s@),
        Err(e) => Err(e@),
    }
}

/// Checks bucket names.
pub trait Checker {
    /// Whether checking `unchecked` may give `out`.
    spec fn checks(&self, unchecked: Seq<char>, out: Result<Seq<char>, StatusView>) -> bool;

    /// Checks a bucket name: the checked name, or why it was refused.
    fn check(&self, unchecked: String) -> (r: Result<String, Status>)
        ensures
            self.checks(unchecked@, check_view(r)),
    ;
}

/// Whether calling `f` on a string whose text is `unchecked` may give `out`.
pub open spec fn fn_checks<F: Fn(String) -> Result<String, Status>>(
    f: F,
    unchecked: Seq<char>,
    out: Result<Seq<char>, StatusView>,
) -> bool {
    exists|s: String, r: Result<String, Status>|
        #![trigger call_ensures(f, (s,), r)]
        s@ == unchecked && call_ensures(f, (s,), r) && check_view(r) == out
}

struct CheckFn<F: Fn(String) -> Result<String, Status>> {
    checker: F,
}

impl<F: Fn(String) -> Result<String, Status>> CheckFn<F> {
    #[verifier::type_invariant]
    spec fn callable(self) -> bool {
        forall|s: String| call_requires(self.checker, (s,))
    }
}

impl<F: Fn(String) -> Result<String, Status>> Checker for CheckFn<F> {
    closed spec fn checks(&self, unchecked: Seq<char>, out: Result<Seq<char>, StatusView>) -> bool {
        fn_checks(self.checker, unchecked, out)
    }

    fn check(&self, unchecked: String) -> (r: Result<String, Status>) {
        proof {
            use_type_invariant(self);
        }
        let ghost u = unchecked;
        let r = (self.checker)(unchecked);
        assert(call_ensures(self.checker, (u,), r));
        r
    }
}

/// A checker that calls `checker` on each name.
pub fn checker_new<F>(checker: F) -> (c: impl Checker)
    where
        F: Fn(String) -> Result<String, Status>,
    requires
        forall|s: String| call_requires(checker, (s,)),
    ensures
        forall|u: Seq<char>, out: Result<Seq<char>, StatusView>|
            #[trigger] c.checks(u, out) <==> fn_checks(checker, u, out),
{
    CheckFn { checker }
}

/// Whether `c` is a hexadecimal digit, in either case.
pub open spec fn is_hex_digit(c: char) -> bool {
    ('0' <= c && c <= '9') || ('a' <= c && c <= 'f') || ('A' <= c && c <= 'F')
}

/// The value of the hexadecimal digit `c`.
pub open spec fn hex_digit_value(c: char) -> nat {
    if '0' <= c && c <= '9' {
        (c as int - 48) as nat
    } else if 'a' <= c && c <= 'f' {
        (c as int - 87) as nat
    } else {
        (c as int - 55) as nat
    }
}

/// The value of a string of hexadecimal digits, most significant first.
pub open spec fn hex_value(s: Seq<char>) -> nat
    decreases s.len(),
{
    if s.len() == 0 {
        0
    } else {
        hex_value(s.drop_last()) * 16 + hex_digit_value(s.last())
    }
}

/// The digits of an unsigned number's text: the text without one leading `+`.
pub open spec fn unsigned_digits(s: Seq<char>) -> Seq<char> {
    if s.len() > 0 && s[0] == '+' {
        s.drop_first()
    } else {
        s
    }
}

/// The 128-bit number that `s` spells in hexadecimal: an optional `+`, then at least one
/// hexadecimal digit and nothing else, of a value that fits in 128 bits.
pub open spec fn parse_hex_u128(s: Seq<char>) -> Option<u128> {
    let d = unsigned_digits(s);
    if d.len() > 0 && (forall|i: int| 0 <= i < d.len() ==> is_hex_digit(#[trigger] d[i]))
        && hex_value(d) <= u128::MAX {
        Some(hex_value(d) as u128)
    } else {
        None
    }
}

#[verifier::external_type_specification]
#[verifier::external_body]
pub struct ExParseIntError(core::num::ParseIntError);

/// The error that `u128::from_str_radix` gives on the text `s` in radix 16.
pub uninterp spec fn hex_parse_error(s: Seq<char>) -> core::num::ParseIntError;

/// The text that `ParseIntError`'s `Display` gives the error `e`.
pub uninterp spec fn int_error_text(e: core::num::ParseIntError) -> Seq<char>;

/// The text that refusing `s` as a hexadecimal number gives: std's rendering of the error
/// that parsing `s` gives.
pub open spec fn hex_refusal_text(s: Seq<char>) -> Seq<char> {
    int_error_text(hex_parse_error(s))
}

/// `u128::from_str_radix(s, 16)`. As std documents it, the text must be an optional `+`
/// followed by digits of the radix only (`0-9`, `a-f`, `A-F`), at least one, of a value
/// that fits in a `u128`; it is then that value. Otherwise it is an error, which depends on
/// the text alone and is named, not spelled out.
#[verifier::external_body]
fn u128_from_hex(s: &str) -> (r: Result<u128, core::num::ParseIntError>)
    ensures
        match r {
            Ok(v) => parse_hex_u128(s@) == Some(v),
            Err(e) => parse_hex_u128(s@) is None && e == hex_parse_error(s@),
        },
{
    u128::from_str_radix(s, 16)
}

/// The text of a `ParseIntError` (its `Display`, through `to_string`). The text depends on
/// the error alone and is named, not spelled out.
#[verifier::external_body]
fn parse_error_text(e: &core::num::ParseIntError) -> (t: String)
    ensures
        t@ == int_error_text(*e),
{
    e.to_string()
}

proof fn lemma_hex_char_digit(d: nat)
    requires
        d < 16,
    ensures
        is_hex_digit(hex_char(d)),
        hex_digit_value(hex_char(d)) == d,
{
}

proof fn lemma_hex_digits_value(v: nat, n: nat)
    ensures
        hex_digits(v, n).len() == n,
        forall|i: int| 0 <= i < n ==> is_hex_digit(#[trigger] hex_digits(v, n)[i]),
        hex_value(hex_digits(v, n)) == v % pow16(n),
    decreases n,
{
    if n > 0 {
        let p = pow16((n - 1) as nat);
        lemma_hex_digits_value(v / 16, (n - 1) as nat);
        lemma_hex_char_digit(v % 16);
        let s = hex_digits(v, n);
        assert(s.drop_last() =~= hex_digits(v / 16, (n - 1) as nat));
        assert forall|i: int| 0 <= i < n implies is_hex_digit(#[trigger] s[i]) by {
            if i < n - 1 {
                assert(s[i] == hex_digits(v / 16, (n - 1) as nat)[i]);
            }
        }
        assert(p > 0) by {
            lemma_pow16_positive((n - 1) as nat);
        }
        vstd::arithmetic::div_mod::lemma_mod_breakdown(v as int, 16, p as int);
    } else {
        assert(v % 1 == 0);
    }
}

/// The text of a request identifier is a uuid that `uuid_check_simple` accepts, and it
/// spells the identifier's own number.
pub proof fn lemma_uuid_text_is_accepted(v: u128)
    ensures
        parse_hex_u128(hex_digits(v as nat, 32)) == Some(v),
{
    lemma_hex_digits_value(v as nat, 32);
    reveal_with_fuel(pow16, 33);
    assert(pow16(32) == 0x1_0000_0000_0000_0000_0000_0000_0000_0000nat);
    let s = hex_digits(v as nat, 32);
    lemma_hex_char_digit(v as nat % 16);
    assert(s[0] != '+') by {
        assert(is_hex_digit(s[0]));
    }
    assert(unsigned_digits(s) == s);
}

/// The message prefix of a name refused as a uuid.
pub open spec fn invalid_uuid_prefix() -> Seq<char> {
    "Invalid uuid: "@
}

/// Whether `out` is what checking `unchecked` as a uuid gives: the name itself when it is a
/// 128-bit hexadecimal number, else an invalid-argument status whose message is
/// `Invalid uuid: ` and std's text of the parse error.
pub open spec fn uuid_checks(unchecked: Seq<char>, out: Result<Seq<char>, StatusView>) -> bool {
    match out {
        Ok(s) => parse_hex_u128(unchecked) is Some && s == unchecked,
        Err(e) => parse_hex_u128(unchecked) is None && e.code == Code::InvalidArgument
            && e.message == invalid_uuid_prefix() + hex_refusal_text(unchecked),
    }
}

/// Accepts a name that is a 128-bit number in hexadecimal, unchanged.
pub fn uuid_check_simple(unchecked: String) -> (r: Result<String, Status>)
    ensures
        uuid_checks(unchecked@, check_view(r)),
{
    match u128_from_hex(unchecked.as_str()) {
        Ok(_) => Ok(unchecked),
        Err(e) => {
            let mut message = String::new();
            message.append("Invalid uuid: ");
            let detail = parse_error_text(&e);
            message.append(detail.as_str());
            proof {
                assert(message@ == invalid_uuid_prefix() + detail@);
            }
            Err(Status::invalid_argument(message))
        },
    }
}

/// What prefixing the checked name with `prefix` makes of a check's outcome.
pub open spec fn prefixed(prefix: Seq<char>, out: Result<Seq<char>, StatusView>) -> Result<
    Seq<char>,
    StatusView,
> {
    match out {
        Ok(s) => Ok(prefix + s),
        Err(e) => Err(e),
    }
}

/// A checker that checks each name with `checker` and puts `prefix` before what it accepts.
pub fn uuid_checker_new<F>(checker: F, prefix: String) -> (c: impl Checker)
    where
        F: Fn(String) -> Result<String, Status>,
    requires
        forall|s: String| call_requires(checker, (s,)),
    ensures
        forall|u: Seq<char>, out: Result<Seq<char>, StatusView>|
            #[trigger] c.checks(u, out) ==> exists|mid: Result<Seq<char>, StatusView>|
                fn_checks(checker, u, mid) && out == prefixed(prefix@, mid),
{
    let p: Ghost<Seq<char>> = Ghost(prefix@);
    let g: Ghost<F> = Ghost(checker);
    let f = move |unchecked: String| -> (r: Result<String, Status>)
        requires
            call_requires(g@, (unchecked,)),
        ensures
            exists|mid: Result<String, Status>|
                call_ensures(g@, (unchecked,), mid) && check_view(r) == prefixed(p@, check_view(mid)),
        {
            let ghost u = unchecked;
            let checked = checker(unchecked);
            match checked {
                Ok(c) => {
                    let mut s = prefix.clone();
                    s.append(c.as_str());
                    let r: Result<String, Status> = Ok(s);
                    assert(call_ensures(g@, (u,), checked));
                    assert(check_view(r) == prefixed(p@, check_view(checked)));
                    r
                },
                Err(e) => {
                    let r: Result<String, Status> = Err(e);
                    assert(check_view(r) == prefixed(p@, check_view(checked)));
                    r
                },
            }
        };
    assert forall|s: String| call_requires(f, (s,)) by {}
    let c = checker_new(f);
    assert forall|u: Seq<char>, out: Result<Seq<char>, StatusView>|
        #[trigger] c.checks(u, out) implies exists|mid: Result<Seq<char>, StatusView>|
            fn_checks(checker, u, mid) && out == prefixed(p@, mid) by {
        let (s, r) = choose|s: String, r: Result<String, Status>|
            s@ == u && call_ensures(f, (s,), r) && check_view(r) == out;
        let mid = choose|mid: Result<String, Status>|
            call_ensures(checker, (s,), mid) && check_view(r) == prefixed(p@, check_view(mid));
        assert(fn_checks(checker, u, check_view(mid)));
    }
    c
}

/// A checker that accepts names that are 128-bit hexadecimal numbers, and puts `prefix`
/// before them.
pub fn uuid_checker_new_simple(prefix: String) -> (c: impl Checker)
    ensures
        forall|u: Seq<char>, out: Result<Seq<char>, StatusView>|
            #[trigger] c.checks(u, out) ==> exists|mid: Result<Seq<char>, StatusView>|
                uuid_checks(u, mid) && out == prefixed(prefix@, mid),
{
    let ghost p = prefix@;
    assert forall|s: String| call_requires(uuid_check_simple, (s,)) by {}
    let c = uuid_checker_new(uuid_check_simple, prefix);
    assert forall|u: Seq<char>, out: Result<Seq<char>, StatusView>|
        #[trigger] c.checks(u, out) implies exists|mid: Result<Seq<char>, StatusView>|
            uuid_checks(u, mid) && out == prefixed(p, mid) by {
        let mid = choose|mid: Result<Seq<char>, StatusView>|
            fn_checks(uuid_check_simple, u, mid) && out == prefixed(p, mid);
        let (s, r) = choose|s: String, r: Result<String, Status>|
            s@ == u && call_ensures(uuid_check_simple, (s,), r) && check_view(r) == mid;
        assert(uuid_checks(u, mid));
    }
    c
}

/// A checker that accepts every name as it is.
pub fn nop_checker() -> (c: impl Checker)
    ensures
        forall|u: Seq<char>, out: Result<Seq<char>, StatusView>|
            #[trigger] c.checks(u, out) ==> out == Ok::<Seq<char>, StatusView>(u),
{
    let f = |s: String| -> (r: Result<String, Status>)
        ensures
            check_view(r) == Ok::<Seq<char>, StatusView>(s@),
        { Ok(s) };
    assert forall|s: String| call_requires(f, (s,)) by {}
    let c = checker_new(f);
    assert forall|u: Seq<char>, out: Result<Seq<char>, StatusView>|
        #[trigger] c.checks(u, out) implies out == Ok::<Seq<char>, StatusView>(u) by {
        let (s, r) = choose|s: String, r: Result<String, Status>|
            s@ == u && call_ensures(f, (s,), r) && check_view(r) == out;
    }
    c
}

/// The checker that accepts every name as it is.
pub struct NoChecker;

impl Default for NoChecker {
    fn default() -> (c: Self) {
        NoChecker
    }
}

impl Checker for NoChecker {
    open spec fn checks(&self, unchecked: Seq<char>, out: Result<Seq<char>, StatusView>) -> bool {
        out == Ok::<Seq<char>, StatusView>(unchecked)
    }

    fn check(&self, unchecked: String) -> (r: Result<String, Status>) {
        Ok(unchecked)
    }
}

} // verus!
