//! Text as it crosses into the native library: the null-terminator check,
//! and the decimal rendering used in error messages.

use vstd::prelude::*;

verus! {

/// Whether `s` holds a null character, which a null-terminated string
/// cannot carry.
pub open spec fn holds_nul(s: Seq<char>) -> bool {
    s.contains('\0')
}

/// The decimal digit for `d`, a number below ten.
pub open spec fn digit_char(d: nat) -> char {
    if d == 0 { '0' }
    else if d == 1 { '1' }
    else if d == 2 { '2' }
    else if d == 3 { '3' }
    else if d == 4 { '4' }
    else if d == 5 { '5' }
    else if d == 6 { '6' }
    else if d == 7 { '7' }
    else if d == 8 { '8' }
    else { '9' }
}

/// `n` in decimal, without sign or leading zeros.
pub open spec fn decimal(n: nat) -> Seq<char>
    decreases n,
{
    if n < 10 {
        seq![digit_char(n)]
    } else {
        decimal(n / 10).push(digit_char(n % 10))
    }
}

/// Whether `s` holds a null character: text that does cannot be handed
/// to the native library.
pub fn has_nul(s: &str) -> (r: bool)
    ensures
        r == holds_nul(s@),
{
    broadcast use vstd::string::axiom_spec_iter;

    let mut found: bool = false;
    for c in it: s.chars()
        invariant
            it.seq() == s@,
            found <==> s@.take(it.index() as int).contains('\0'),
    {
        proof {
            let before = s@.take(it.index() as int);
            assert(s@.take(it.index() + 1) == before.push(c));
            assert(before.push(c).contains('\0') ==> (before.contains('\0') || c == '\0'));
            if c == '\0' {
                assert(before.push(c)[before.len() as int] == '\0');
            }
            if before.contains('\0') {
                let j = choose|j: int| 0 <= j < before.len() && before[j] == '\0';
                assert(before.push(c)[j] == '\0');
            }
        }
        found = found || c == '\0';
    }
    proof {
        assert(s@.take(s@.len() as int) == s@);
    }
    found
}

/// Relies on `ToString` through `u32`'s `Display`: a `u32` is written in
/// decimal, with no sign and no leading zeros.
#[verifier::external_body]
pub(crate) fn decimal_text(n: u32) -> (r: String)
    ensures
        r@ == decimal(n as nat),
{
    n.to_string()
}

} // verus!
