//! Small text pieces: booleans, decimal numbers, quoted strings.

use vstd::prelude::*;
use vstd::string::*;

verus! {

/// `true` or `false`.
pub open spec fn bool_str(b: bool) -> Seq<char> {
    if b {
        "true"@
    } else {
        "false"@
    }
}

/// The decimal digit `d`.
pub open spec fn digit_str(d: nat) -> Seq<char> {
    if d == 0 {
        "0"@
    } else if d == 1 {
        "1"@
    } else if d == 2 {
        "2"@
    } else if d == 3 {
        "3"@
    } else if d == 4 {
        "4"@
    } else if d == 5 {
        "5"@
    } else if d == 6 {
        "6"@
    } else if d == 7 {
        "7"@
    } else if d == 8 {
        "8"@
    } else {
        "9"@
    }
}

/// `n` in decimal, without leading zeros.
pub open spec fn decimal_str(n: nat) -> Seq<char>
    decreases n,
{
    if n < 10 {
        digit_str(n)
    } else {
        decimal_str(n / 10) + digit_str(n % 10)
    }
}

/// A string as a double-quoted literal with escapes, as Rust's `Debug`
/// writes it.
pub uninterp spec fn debug_quoted(s: Seq<char>) -> Seq<char>;

/// Relies on `<str as Debug>::fmt`: the quoted, escaped form of the string,
/// which depends on its characters alone.
#[verifier::external_body]
pub(crate) fn quoted(s: &String) -> (r: String)
    ensures
        r@ == debug_quoted(s@),
{
    format!("{:?}", s)
}

/// `true` or `false`.
pub fn bool_text(b: bool) -> (r: &'static str)
    ensures
        r@ == bool_str(b),
{
    if b {
        "true"
    } else {
        "false"
    }
}

fn digit_text(d: usize) -> (r: &'static str)
    requires
        d < 10,
    ensures
        r@ == digit_str(d as nat),
{
    if d == 0 {
        "0"
    } else if d == 1 {
        "1"
    } else if d == 2 {
        "2"
    } else if d == 3 {
        "3"
    } else if d == 4 {
        "4"
    } else if d == 5 {
        "5"
    } else if d == 6 {
        "6"
    } else if d == 7 {
        "7"
    } else if d == 8 {
        "8"
    } else {
        "9"
    }
}

/// Appends `n` in decimal.
pub fn push_decimal(out: &mut String, n: usize)
    ensures
        final(out)@ == old(out)@ + decimal_str(n as nat),
    decreases n,
{
    let ghost start = out@;
    if n < 10 {
        out.append(digit_text(n));
    } else {
        push_decimal(out, n / 10);
        out.append(digit_text(n % 10));
        proof {
            assert(out@ =~= start + decimal_str(n as nat));
        }
    }
}

} // verus!
