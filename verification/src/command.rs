//! The argument lists that the transformations hand to the media tool, and
//! the small text helpers that build them.

use vstd::prelude::*;
use vstd::string::*;
use crate::ffutils::{escaped, FFUtils};
use crate::naming::names_view;

verus! {

/// Whether `a` and `b` hold the same text.
pub fn same_text(a: &str, b: &str) -> (r: bool)
    ensures
        r == (a@ == b@),
{
    String::from_str(a) == String::from_str(b)
}

/// The decimal digit for `d`.
pub open spec fn digit(d: nat) -> char
    recommends
        d < 10,
{
    seq!['0', '1', '2', '3', '4', '5', '6', '7', '8', '9'][d as int]
}

/// `n` written in decimal digits, without leading zeros.
pub open spec fn decimal_digits(n: nat) -> Seq<char>
    decreases n,
{
    if n < 10 {
        seq![digit(n)]
    } else {
        decimal_digits(n / 10).push(digit(n % 10))
    }
}

/// `n` written in decimal digits, without leading zeros.
pub fn decimal(n: u64) -> (r: String)
    ensures
        r@ == decimal_digits(n as nat),
    decreases n,
{
    let d: usize = (n % 10) as usize;
    proof {
        reveal_strlit("0123456789");
        assert("0123456789"@.subrange(d as int, d + 1) =~= seq![digit(d as nat)]);
    }
    let last = "0123456789".substring_char(d, d + 1);
    if n < 10 {
        String::from_str(last)
    } else {
        let mut out = decimal(n / 10);
        out.append(last);
        assert(out@ =~= decimal_digits((n / 10) as nat).push(digit((n % 10) as nat)));
        out
    }
}

/// `n` written in decimal digits, with a `-` before them where it is
/// negative.
pub open spec fn signed_digits(n: int) -> Seq<char> {
    if n < 0 {
        seq!['-'] + decimal_digits((-n) as nat)
    } else {
        decimal_digits(n as nat)
    }
}

/// `n` written in decimal digits, with a `-` before them where it is
/// negative.
pub fn signed_decimal(n: i64) -> (r: String)
    ensures
        r@ == signed_digits(n as int),
{
    if n >= 0 {
        decimal(n as u64)
    } else {
        let magnitude: u64 = (-(n + 1)) as u64 + 1;
        let mut out = String::from_str("-");
        let digits = decimal(magnitude);
        out.append(digits.as_str());
        proof {
            reveal_strlit("-");
            assert("-"@ =~= seq!['-']);
        }
        out
    }
}

/// The arguments that apply one filter: `flag` is the tool's option for the
/// kind of filter, `filter` the filter itself; the audio is copied.
pub open spec fn filter_args(
    src: Seq<char>,
    flag: Seq<char>,
    filter: Seq<char>,
    dst: Seq<char>,
) -> Seq<Seq<char>> {
    seq!["-y"@, "-i"@, src, flag, filter, "-c:a"@, "copy"@, "-loglevel"@, "error"@, dst]
}

/// The arguments that copy all streams of `src` to `dst` unchanged.
pub open spec fn copy_args(src: Seq<char>, dst: Seq<char>) -> Seq<Seq<char>> {
    seq!["-y"@, "-i"@, src, "-c"@, "copy"@, "-loglevel"@, "error"@, dst]
}

/// The filter that loads the image or video at `path`, escaped, and goes on
/// with `tail`.
pub open spec fn movie_filter_text(path: Seq<char>, tail: Seq<char>) -> Seq<char> {
    "movie='"@ + escaped(path) + tail
}

/// The arguments that apply one filter; see `filter_args`.
pub fn filter_command(src: &str, flag: &str, filter: &str, dst: &str) -> (r: Vec<String>)
    ensures
        names_view(r@) == filter_args(src@, flag@, filter@, dst@),
{
    let mut out: Vec<String> = Vec::new();
    out.push(String::from_str("-y"));
    out.push(String::from_str("-i"));
    out.push(String::from_str(src));
    out.push(String::from_str(flag));
    out.push(String::from_str(filter));
    out.push(String::from_str("-c:a"));
    out.push(String::from_str("copy"));
    out.push(String::from_str("-loglevel"));
    out.push(String::from_str("error"));
    out.push(String::from_str(dst));
    assert(names_view(out@) =~= filter_args(src@, flag@, filter@, dst@));
    out
}

/// The arguments that copy all streams; see `copy_args`.
pub fn copy_command(src: &str, dst: &str) -> (r: Vec<String>)
    ensures
        names_view(r@) == copy_args(src@, dst@),
{
    let mut out: Vec<String> = Vec::new();
    out.push(String::from_str("-y"));
    out.push(String::from_str("-i"));
    out.push(String::from_str(src));
    out.push(String::from_str("-c"));
    out.push(String::from_str("copy"));
    out.push(String::from_str("-loglevel"));
    out.push(String::from_str("error"));
    out.push(String::from_str(dst));
    assert(names_view(out@) =~= copy_args(src@, dst@));
    out
}

/// The filter that loads the file at `path`; see `movie_filter_text`.
pub fn movie_filter(path: &str, tail: &str) -> (r: String)
    ensures
        r@ == movie_filter_text(path@, tail@),
{
    let mut out = String::from_str("movie='");
    let escaped_path = FFUtils::escape_path(path);
    out.append(escaped_path.as_str());
    out.append(tail);
    out
}

} // verus!
