//! How literals are written.

use crate::syntax::IntSuffix;
use vstd::prelude::*;

verus! {

/// The quoted and escaped form in which `str`'s `Debug` implementation writes
/// a string.
pub uninterp spec fn debug_quoted(s: Seq<char>) -> Seq<char>;

/// Formats the string with `{:?}`: the result is what `str`'s `Debug`
/// implementation writes for it.
#[verifier::external_body]
pub(crate) fn quote_str(s: &str) -> (quoted: String)
    ensures
        quoted@ == debug_quoted(s@),
{
    format!("{:?}", s)
}

/// The character that stands for a digit.
pub open spec fn digit_char(d: nat) -> char
    recommends
        d < 10,
{
    if d == 0 {
        '0'
    } else if d == 1 {
        '1'
    } else if d == 2 {
        '2'
    } else if d == 3 {
        '3'
    } else if d == 4 {
        '4'
    } else if d == 5 {
        '5'
    } else if d == 6 {
        '6'
    } else if d == 7 {
        '7'
    } else if d == 8 {
        '8'
    } else {
        '9'
    }
}

/// The decimal numeral of a number: no sign, no leading zero, `0` for zero.
pub open spec fn decimal(n: nat) -> Seq<char>
    decreases n,
{
    if n < 10 {
        seq![digit_char(n)]
    } else {
        decimal(n / 10).push(digit_char(n % 10))
    }
}

/// The text of an integer suffix; nothing where there is none.
pub open spec fn suffix_text(suffix: IntSuffix) -> Seq<char> {
    match suffix {
        IntSuffix::I8 => "i8"@,
        IntSuffix::I16 => "i16"@,
        IntSuffix::I32 => "i32"@,
        IntSuffix::I64 => "i64"@,
        IntSuffix::I128 => "i128"@,
        IntSuffix::Isize => "isize"@,
        IntSuffix::U8 => "u8"@,
        IntSuffix::U16 => "u16"@,
        IntSuffix::U32 => "u32"@,
        IntSuffix::U64 => "u64"@,
        IntSuffix::U128 => "u128"@,
        IntSuffix::Usize => "usize"@,
        IntSuffix::Unsuffixed => ""@,
    }
}

fn digit(d: u64) -> (c: char)
    requires
        d < 10,
    ensures
        c == digit_char(d as nat),
{
    if d == 0 {
        '0'
    } else if d == 1 {
        '1'
    } else if d == 2 {
        '2'
    } else if d == 3 {
        '3'
    } else if d == 4 {
        '4'
    } else if d == 5 {
        '5'
    } else if d == 6 {
        '6'
    } else if d == 7 {
        '7'
    } else if d == 8 {
        '8'
    } else {
        '9'
    }
}

/// The digits of `n` from the position of `rest` on, least significant
/// first: the numeral of `n` is the numeral of `rest` followed by them in
/// reverse.
spec fn digits_taken(n: nat, rest: nat, low: Seq<char>) -> bool {
    decimal(n) == decimal(rest) + low.reverse()
}

/// The decimal numeral of `n`.
pub fn decimal_string(n: u64) -> (s: String)
    ensures
        s@ == decimal(n as nat),
{
    let mut low: Vec<char> = Vec::new();
    let mut rest: u64 = n;
    proof {
        assert(low@.reverse() =~= Seq::<char>::empty());
        assert(decimal(n as nat) + Seq::<char>::empty() =~= decimal(n as nat));
    }
    while rest >= 10
        invariant
            digits_taken(n as nat, rest as nat, low@),
        decreases rest,
    {
        let c = digit(rest % 10);
        proof {
            let next = low@.push(c);
            assert(next.reverse() =~= seq![c] + low@.reverse());
            assert(decimal(rest as nat) == decimal((rest / 10) as nat).push(c));
            assert(decimal((rest / 10) as nat).push(c) + low@.reverse() =~= decimal(
                (rest / 10) as nat,
            ) + next.reverse());
        }
        low.push(c);
        rest = rest / 10;
    }
    let mut s = String::new();
    s.push(digit(rest));
    assert(s@ =~= decimal(rest as nat));
    let mut i: usize = low.len();
    while i > 0
        invariant
            i <= low.len(),
            s@ == decimal(rest as nat) + low@.reverse().take(low.len() - i),
        decreases i,
    {
        i = i - 1;
        s.push(low[i]);
        proof {
            let r = low@.reverse();
            let k = low.len() - i;
            assert(r.take(k) =~= r.take(k - 1).push(low@[i as int]));
            assert(decimal(rest as nat) + r.take(k) =~= (decimal(rest as nat) + r.take(
                k - 1,
            )).push(low@[i as int]));
        }
    }
    proof {
        assert(low@.reverse().take(low.len() as int) =~= low@.reverse());
    }
    s
}

/// The text of an integer suffix.
pub fn suffix_str(suffix: IntSuffix) -> (s: &'static str)
    ensures
        s@ == suffix_text(suffix),
{
    match suffix {
        IntSuffix::I8 => "i8",
        IntSuffix::I16 => "i16",
        IntSuffix::I32 => "i32",
        IntSuffix::I64 => "i64",
        IntSuffix::I128 => "i128",
        IntSuffix::Isize => "isize",
        IntSuffix::U8 => "u8",
        IntSuffix::U16 => "u16",
        IntSuffix::U32 => "u32",
        IntSuffix::U64 => "u64",
        IntSuffix::U128 => "u128",
        IntSuffix::Usize => "usize",
        IntSuffix::Unsuffixed => "",
    }
}

} // verus!
