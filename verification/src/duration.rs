//! The codec between a duration in whole seconds and its display text,
//! `"<minutes>:<seconds>"` with neither part padded.
//!
//! Writing is exact. Reading is lenient: a part that is no number counts as
//! zero, and a text without a colon reads as zero.

use vstd::prelude::*;
use crate::decimal::{
    append_decimal, decimal_digits, is_digit, lemma_decimal_digits_shape,
    lemma_parse_of_digits, parse_u64, parse_u64_in,
};

verus! {

/// `c` is white space: a character with the Unicode property `White_Space`.
pub open spec fn is_space(c: char) -> bool {
    let u = c as u32;
    ||| 0x09 <= u <= 0x0D
    ||| u == 0x20
    ||| u == 0x85
    ||| u == 0xA0
    ||| u == 0x1680
    ||| 0x2000 <= u <= 0x200A
    ||| u == 0x2028
    ||| u == 0x2029
    ||| u == 0x202F
    ||| u == 0x205F
    ||| u == 0x3000
}

/// `s` without the white space it begins with.
pub open spec fn trim_start(s: Seq<char>) -> Seq<char>
    decreases s.len(),
{
    if s.len() > 0 && is_space(s.first()) {
        trim_start(s.drop_first())
    } else {
        s
    }
}

/// `s` without the white space it ends with.
pub open spec fn trim_end(s: Seq<char>) -> Seq<char>
    decreases s.len(),
{
    if s.len() > 0 && is_space(s.last()) {
        trim_end(s.drop_last())
    } else {
        s
    }
}

/// `s` without the white space around it.
pub open spec fn trim(s: Seq<char>) -> Seq<char> {
    trim_end(trim_start(s))
}

/// What one part of a display text counts for: its number once the white
/// space around it is gone, and zero where that is no `u64`.
pub open spec fn part_value(s: Seq<char>) -> nat {
    match parse_u64(trim(s)) {
        Some(v) => v as nat,
        None => 0,
    }
}

/// The display text of `seconds`.
pub open spec fn duration_text(seconds: nat) -> Seq<char> {
    decimal_digits(seconds / 60) + seq![':'] + decimal_digits(seconds % 60)
}

/// The seconds that the display text `s` stands for. The text is split at
/// its first colon into minutes and seconds; the sum stops at `u64::MAX`.
/// A text without a colon stands for zero.
pub open spec fn text_seconds(s: Seq<char>) -> nat {
    match s.index_of_first(':') {
        Some(i) => {
            let total = 60 * part_value(s.take(i)) + part_value(s.skip(i + 1));
            if total <= u64::MAX {
                total
            } else {
                u64::MAX as nat
            }
        },
        None => 0,
    }
}

/// A numeral has no white space around it to lose.
proof fn lemma_trim_of_digits(n: nat)
    ensures
        trim(decimal_digits(n)) == decimal_digits(n),
{
    lemma_decimal_digits_shape(n);
    let s = decimal_digits(n);
    assert(is_digit(s.first()));
    assert(is_digit(s.last()));
}

/// Reading undoes writing: the display text of any number of seconds that
/// fits in a `u64` stands for exactly that number.
pub proof fn lemma_duration_round_trip(seconds: nat)
    requires
        seconds <= u64::MAX,
    ensures
        text_seconds(duration_text(seconds)) == seconds,
{
    let m = seconds / 60;
    let r = seconds % 60;
    let left = decimal_digits(m);
    let right = decimal_digits(r);
    let s = duration_text(seconds);
    lemma_decimal_digits_shape(m);
    lemma_decimal_digits_shape(r);
    let at = left.len() as int;
    assert(s[at] == ':');
    assert(s.contains(':'));
    s.index_of_first_ensures(':');
    let i = s.index_of_first(':').unwrap();
    if i < at {
        assert(s[i] == left[i]);
        assert(is_digit(left[i]));
    }
    assert(i == at);
    assert(s.take(i) =~= left);
    assert(s.skip(i + 1) =~= right);
    lemma_trim_of_digits(m);
    lemma_trim_of_digits(r);
    lemma_parse_of_digits(m);
    lemma_parse_of_digits(r);
}

/// Whether `c` is white space.
fn is_space_char(c: char) -> (r: bool)
    ensures
        r == is_space(c),
{
    let u: u32 = c as u32;
    (0x09 <= u && u <= 0x0D) || u == 0x20 || u == 0x85 || u == 0xA0 || u == 0x1680 || (0x2000 <= u
        && u <= 0x200A) || u == 0x2028 || u == 0x2029 || u == 0x202F || u == 0x205F || u == 0x3000
}

/// What the characters of `chars` from `lo` up to `hi` count for as one part
/// of a display text.
fn part_value_in(chars: &Vec<char>, lo: usize, hi: usize) -> (r: u64)
    requires
        lo <= hi <= chars.len(),
    ensures
        r == part_value(chars@.subrange(lo as int, hi as int)),
{
    let ghost whole = chars@.subrange(lo as int, hi as int);
    let mut a: usize = lo;
    while a < hi && is_space_char(chars[a])
        invariant
            lo <= a <= hi <= chars.len(),
            trim_start(chars@.subrange(lo as int, hi as int)) == trim_start(
                chars@.subrange(a as int, hi as int),
            ),
        decreases hi - a,
    {
        assert(chars@.subrange(a as int, hi as int).drop_first() =~= chars@.subrange(
            a + 1,
            hi as int,
        ));
        a = a + 1;
    }
    let mut b: usize = hi;
    while a < b && is_space_char(chars[b - 1])
        invariant
            a <= b <= hi <= chars.len(),
            trim_end(chars@.subrange(a as int, hi as int)) == trim_end(
                chars@.subrange(a as int, b as int),
            ),
        decreases b - a,
    {
        assert(chars@.subrange(a as int, b as int).drop_last() =~= chars@.subrange(
            a as int,
            b - 1,
        ));
        b = b - 1;
    }
    assert(trim(whole) == chars@.subrange(a as int, b as int));
    match parse_u64_in(chars, a, b) {
        Some(v) => v,
        None => 0,
    }
}

/// The position of the first colon of `chars`, if it has one.
fn first_colon(chars: &Vec<char>) -> (r: Option<usize>)
    ensures
        match r {
            Some(i) => chars@.index_of_first(':') == Some(i as int) && i < chars.len(),
            None => chars@.index_of_first(':') is None,
        },
{
    let mut i: usize = 0;
    while i < chars.len()
        invariant
            i <= chars.len(),
            forall|j: int| 0 <= j < i ==> chars@[j] != ':',
        decreases chars.len() - i,
    {
        if chars[i] == ':' {
            proof {
                assert(chars@.contains(':'));
                chars@.index_of_first_ensures(':');
            }
            return Some(i);
        }
        i = i + 1;
    }
    proof {
        chars@.index_of_first_ensures(':');
        if chars@.index_of_first(':') is Some {
            let k = chars@.index_of_first(':').unwrap();
            assert(chars@[k] == ':');
        }
    }
    None
}

/// Writes `seconds` as `"<minutes>:<seconds>"`: the whole minutes, a colon,
/// and the seconds left over, each as its shortest decimal numeral.
pub fn to_string(seconds: u64) -> (text: String)
    ensures
        text@ == duration_text(seconds as nat),
{
    let mut text = String::new();
    append_decimal(&mut text, seconds / 60);
    proof {
        reveal_strlit(":");
    }
    text.append(":");
    append_decimal(&mut text, seconds % 60);
    assert(text@ =~= duration_text(seconds as nat));
    text
}

/// Reads a display text back into seconds. No input fails: a part that is
/// no number counts as zero, a text without a colon reads as zero, and a sum
/// too large for a `u64` reads as `u64::MAX`.
pub fn from_string(inp: &str) -> (seconds: u64)
    ensures
        seconds == text_seconds(inp@),
{
    let mut chars: Vec<char> = Vec::new();
    for c in it: inp.chars()
        invariant
            chars@ == it.seq().take(it.index() as int),
    {
        chars.push(c);
    }
    assert(chars@ == inp@);
    match first_colon(&chars) {
        Some(i) => {
            assert(chars@.subrange(0, i as int) =~= chars@.take(i as int));
            assert(chars@.subrange(i + 1, chars.len() as int) =~= chars@.skip(i + 1));
            let minutes = part_value_in(&chars, 0, i);
            let rest = part_value_in(&chars, i + 1, chars.len());
            match minutes.checked_mul(60) {
                Some(m) => m.saturating_add(rest),
                None => u64::MAX,
            }
        },
        None => 0,
    }
}

} // verus!
