//! Byte-length and character-class helpers shared by every bounded text field.
use vstd::prelude::*;

verus! {

/// UTF-8 byte length of text with character view `s`, as `str::len` reports it.
pub open spec fn blen(s: Seq<char>) -> usize {
    vstd::utf8::encode_utf8(s).len() as usize
}

/// `n` clamped to the largest `usize`, the value of a saturating sum.
pub open spec fn sat(n: int) -> usize {
    if n > usize::MAX {
        usize::MAX
    } else if n < 0 {
        0
    } else {
        n as usize
    }
}

/// UTF-8 byte length of an owned string.
pub fn text_len(s: &String) -> (n: usize)
    ensures
        n == blen(s@),
{
    s.as_str().len()
}

/// UTF-8 byte length of a borrowed string.
pub fn str_len(s: &str) -> (n: usize)
    ensures
        n == blen(s@),
{
    s.len()
}

/// Adds `b` to a running saturating sum.
pub fn sat_add(a: usize, b: usize) -> (r: usize)
    ensures
        r == sat(a + b),
{
    a.saturating_add(b)
}

/// A saturating sum taken in two steps equals the saturating total.
pub proof fn lemma_sat_add(x: int, b: int)
    requires
        x >= 0,
        b >= 0,
    ensures
        sat(sat(x) + b) == sat(x + b),
{
}

/// Saturating an inner part of a nonnegative sum does not change the saturated total.
pub proof fn lemma_sat_inner(a: int, x: int)
    requires
        a >= 0,
        x >= 0,
    ensures
        sat(a + sat(x)) == sat(a + x),
{
}

/// `x` clamped to the largest `usize`.
pub fn clamp(x: u128) -> (r: usize)
    ensures
        r == sat(x as int),
{
    if x > usize::MAX as u128 {
        usize::MAX
    } else {
        x as usize
    }
}

/// Saturation is monotone.
pub proof fn lemma_sat_mono(x: int, y: int)
    requires
        x <= y,
    ensures
        sat(x) <= sat(y),
{
}

/// Unicode `White_Space`, the class that `char::is_whitespace` tests.
pub open spec fn is_space(c: char) -> bool {
    let v = c as u32;
    (0x9 <= v && v <= 0xd) || v == 0x20 || v == 0x85 || v == 0xa0 || v == 0x1680 || (0x2000 <= v
        && v <= 0x200a) || v == 0x2028 || v == 0x2029 || v == 0x202f || v == 0x205f || v == 0x3000
}

/// Unicode general category `Cc`, the class that `char::is_control` tests.
pub open spec fn is_control(c: char) -> bool {
    let v = c as u32;
    v <= 0x1f || (0x7f <= v && v <= 0x9f)
}

/// Text that `str::trim` reduces to nothing.
pub open spec fn is_blank(s: Seq<char>) -> bool {
    forall|i: int| 0 <= i < s.len() ==> is_space(#[trigger] s[i])
}

/// Whether some character of `s` is a control character.
pub open spec fn has_control(s: Seq<char>) -> bool {
    exists|i: int| 0 <= i < s.len() && is_control(#[trigger] s[i])
}

/// Whether `s` holds the character `c`.
pub open spec fn has_char(s: Seq<char>, c: char) -> bool {
    exists|i: int| 0 <= i < s.len() && #[trigger] s[i] == c
}

fn char_is_space(c: char) -> (r: bool)
    ensures
        r == is_space(c),
{
    let v = c as u32;
    (0x9 <= v && v <= 0xd) || v == 0x20 || v == 0x85 || v == 0xa0 || v == 0x1680 || (0x2000 <= v
        && v <= 0x200a) || v == 0x2028 || v == 0x2029 || v == 0x202f || v == 0x205f || v == 0x3000
}

fn char_is_control(c: char) -> (r: bool)
    ensures
        r == is_control(c),
{
    let v = c as u32;
    v <= 0x1f || (0x7f <= v && v <= 0x9f)
}

/// Whether `s` holds only whitespace, as `s.trim().is_empty()` decides.
pub fn blank(s: &str) -> (r: bool)
    ensures
        r == is_blank(s@),
{
    let n = s.unicode_len();
    let mut i: usize = 0;
    while i < n
        invariant
            n == s@.len(),
            i <= n,
            forall|j: int| 0 <= j < i ==> is_space(#[trigger] s@[j]),
        decreases n - i,
    {
        let c = s.get_char(i);
        if !char_is_space(c) {
            return false;
        }
        i = i + 1;
    }
    true
}

/// Whether `s` holds a control character.
pub fn contains_control(s: &str) -> (r: bool)
    ensures
        r == has_control(s@),
{
    let n = s.unicode_len();
    let mut i: usize = 0;
    while i < n
        invariant
            n == s@.len(),
            i <= n,
            forall|j: int| 0 <= j < i ==> !is_control(#[trigger] s@[j]),
        decreases n - i,
    {
        let c = s.get_char(i);
        if char_is_control(c) {
            assert(is_control(s@[i as int]));
            return true;
        }
        i = i + 1;
    }
    false
}

/// Whether `s` holds the character `c`.
pub fn contains_char(s: &str, c: char) -> (r: bool)
    ensures
        r == has_char(s@, c),
{
    let n = s.unicode_len();
    let mut i: usize = 0;
    while i < n
        invariant
            n == s@.len(),
            i <= n,
            forall|j: int| 0 <= j < i ==> #[trigger] s@[j] != c,
        decreases n - i,
    {
        if s.get_char(i) == c {
            assert(s@[i as int] == c);
            return true;
        }
        i = i + 1;
    }
    false
}

} // verus!
