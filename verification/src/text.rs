//! Text that goes to the driver and text that comes back from it.

use vstd::prelude::*;
use vstd::slice::slice_subrange;
use vstd::string::StringExecFns;

verus! {

/// The text that `String::from_utf8_lossy` makes of some bytes: the text they
/// encode, with a replacement character for every part that encodes none.
pub uninterp spec fn lossy_text(bytes: Seq<u8>) -> Seq<char>;

/// `String::from_utf8_lossy`, with the result copied into a `String`.
///
/// Not proved. The contract only gives the result its name: the same bytes
/// always decode to the same text.
#[verifier::external_body]
pub(crate) fn from_utf8_lossy(bytes: &[u8]) -> (r: String)
    ensures
        r@ == lossy_text(bytes@),
{
    String::from_utf8_lossy(bytes).into_owned()
}

/// The text of the first `len` bytes that the driver wrote into `buf`.
pub open spec fn written_text(buf: Seq<u8>, len: int) -> Seq<char> {
    lossy_text(buf.subrange(0, len))
}

/// Whether the driver can have written `len` bytes into `buf`.
pub open spec fn fits(buf: Seq<u8>, len: int) -> bool {
    0 <= len <= buf.len()
}

/// Decodes the first `len` bytes of `buf`.
pub fn text_of(buf: &[u8], len: i32) -> (r: String)
    requires
        fits(buf@, len as int),
    ensures
        r@ == written_text(buf@, len as int),
{
    let written = slice_subrange(buf, 0, len as usize);
    from_utf8_lossy(written)
}

/// Whether `len` bytes fit into `buf`.
pub fn check_fits(buf: &[u8], len: i32) -> (r: bool)
    ensures
        r == fits(buf@, len as int),
{
    len >= 0 && len as usize <= buf.len()
}

/// The string with a terminator at its end: itself where it has one already,
/// else with one appended.
pub open spec fn legal(s: Seq<char>) -> Seq<char> {
    if s.len() > 0 && s.last() == '\0' {
        s
    } else {
        s.push('\0')
    }
}

/// A string made legal ends in a terminator, begins with the string it was
/// made from, and stays as it is when made legal again.
pub proof fn lemma_legal_is_terminated(s: Seq<char>)
    ensures
        legal(s).len() > 0,
        legal(s).last() == '\0',
        s.is_prefix_of(legal(s)),
        legal(legal(s)) == legal(s),
{
}

/// The decimal digit for a number below ten.
pub open spec fn digit(d: nat) -> char {
    if d == 0 {
        '0'
    } else if d == 1 {
        '1'
    } else if d == 2 {
        '2'
    } else if d == 3 {
        '3'
    } else if d == 4 {
        '4'
    } else if d == 5 {
        '5'
    } else if d == 6 {
        '6'
    } else if d == 7 {
        '7'
    } else if d == 8 {
        '8'
    } else {
        '9'
    }
}

/// A number written in decimal, without sign or leading zeros.
pub open spec fn decimal(n: nat) -> Seq<char>
    decreases n,
{
    if n < 10 {
        seq![digit(n)]
    } else {
        decimal(n / 10).push(digit(n % 10))
    }
}

fn digit_str(d: u32) -> (r: &'static str)
    requires
        d < 10,
    ensures
        r@ == seq![digit(d as nat)],
{
    proof {
        reveal_strlit("0");
        reveal_strlit("1");
        reveal_strlit("2");
        reveal_strlit("3");
        reveal_strlit("4");
        reveal_strlit("5");
        reveal_strlit("6");
        reveal_strlit("7");
        reveal_strlit("8");
        reveal_strlit("9");
    }
    if d == 0 {
        "0"
    } else if d == 1 {
        "1"
    } else if d == 2 {
        "2"
    } else if d == 3 {
        "3"
    } else if d == 4 {
        "4"
    } else if d == 5 {
        "5"
    } else if d == 6 {
        "6"
    } else if d == 7 {
        "7"
    } else if d == 8 {
        "8"
    } else {
        "9"
    }
}

/// The digits still to be written in front of what has been written.
spec fn leading(rest: nat) -> Seq<char> {
    if rest == 0 {
        Seq::empty()
    } else {
        decimal(rest)
    }
}

/// Writes a number in decimal.
pub fn to_decimal(x: u32) -> (r: String)
    ensures
        r@ == decimal(x as nat),
{
    let mut rest: u32 = x / 10;
    let mut out = String::from_str(digit_str(x % 10));
    while rest != 0
        invariant
            decimal(x as nat) == leading(rest as nat) + out@,
        decreases rest,
    {
        let d: u32 = rest % 10;
        out = String::from_str(digit_str(d)).concat(out.as_str());
        rest = rest / 10;
    }
    out
}

} // verus!
