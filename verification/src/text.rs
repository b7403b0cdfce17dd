//! Small verified text utilities: owned copies, concatenation, ASCII
//! case-insensitive search, blank detection and decimal rendering.

use vstd::prelude::*;
use vstd::string::*;

verus! {

/// An owned copy of `s`.
pub fn owned(s: &str) -> (r: String)
    ensures
        r@ == s@,
{
    String::from_str(s)
}

/// `a` followed by `b`.
pub fn joined(a: &str, b: &str) -> (r: String)
    ensures
        r@ == a@ + b@,
{
    let mut r = String::from_str(a);
    r.append(b);
    r
}

/// Whether two texts are equal.
pub fn text_eq(a: &str, b: &str) -> (same: bool)
    ensures
        same == (a@ == b@),
{
    let n = a.unicode_len();
    if n != b.unicode_len() {
        return false;
    }
    let mut i: usize = 0;
    while i < n
        invariant
            n == a@.len(),
            n == b@.len(),
            i <= n,
            forall|k: int| 0 <= k < i ==> a@[k] == b@[k],
        decreases n - i,
    {
        if a.get_char(i) != b.get_char(i) {
            return false;
        }
        i = i + 1;
    }
    assert(a@ =~= b@);
    true
}

/// ASCII lowercase of one character; every other character is unchanged.
pub open spec fn ascii_lower(c: char) -> char {
    if 'A' <= c && c <= 'Z' {
        ((c as u32) + 32) as char
    } else {
        c
    }
}

/// ASCII lowercase of a whole text.
pub open spec fn ascii_lowercase(s: Seq<char>) -> Seq<char> {
    Seq::new(s.len(), |i: int| ascii_lower(s[i]))
}

/// Whether `needle` occurs in `hay` at position `at`.
pub open spec fn occurs_at(hay: Seq<char>, needle: Seq<char>, at: int) -> bool {
    0 <= at && at + needle.len() <= hay.len() && hay.subrange(at, at + needle.len()) == needle
}

/// Whether `needle` occurs somewhere in `hay`.
pub open spec fn contains_text(hay: Seq<char>, needle: Seq<char>) -> bool {
    exists|at: int| occurs_at(hay, needle, at)
}

fn lower_code(c: char) -> (code: u32)
    ensures
        code == ascii_lower(c) as u32,
{
    let v = c as u32;
    if 65 <= v && v <= 90 {
        assert('A' <= c && c <= 'Z');
        v + 32
    } else {
        v
    }
}

/// Whether the ASCII lowercase of `hay` contains `needle`.
pub fn lowercase_contains(hay: &str, needle: &str) -> (found: bool)
    ensures
        found == contains_text(ascii_lowercase(hay@), needle@),
{
    let h = hay.unicode_len();
    let n = needle.unicode_len();
    let ghost low = ascii_lowercase(hay@);
    if n > h {
        proof {
            assert forall|at: int| !occurs_at(low, needle@, at) by {}
        }
        return false;
    }
    let mut at: usize = 0;
    loop
        invariant
            h == hay@.len(),
            n == needle@.len(),
            n <= h,
            at <= h - n,
            low == ascii_lowercase(hay@),
            forall|k: int| 0 <= k < at ==> !occurs_at(low, needle@, k),
        decreases h - n - at,
    {
        let mut j: usize = 0;
        let mut same = true;
        while j < n
            invariant
                h == hay@.len(),
                n == needle@.len(),
                at + n <= h,
                j <= n,
                low == ascii_lowercase(hay@),
                same ==> forall|m: int| 0 <= m < j ==> low[at + m] == needle@[m],
                !same ==> !occurs_at(low, needle@, at as int),
            decreases n - j,
        {
            if same {
                let a = lower_code(hay.get_char(at + j));
                let b = needle.get_char(j) as u32;
                if a != b {
                    same = false;
                    proof {
                        assert(low[at + j] != needle@[j as int]);
                        if occurs_at(low, needle@, at as int) {
                            assert(low.subrange(at as int, at + n)[j as int] == low[at + j]);
                        }
                    }
                }
            }
            j = j + 1;
        }
        if same {
            proof {
                assert(low.subrange(at as int, at + n) =~= needle@);
                assert(occurs_at(low, needle@, at as int));
            }
            return true;
        }
        if at == h - n {
            proof {
                assert forall|k: int| !occurs_at(low, needle@, k) by {
                    if 0 <= k && k + n <= h && k != at {
                        assert(k < at);
                    }
                }
            }
            return false;
        }
        at = at + 1;
    }
}

/// Whether `c` is a Unicode `White_Space` character (what `char::is_whitespace`
/// documents).
pub open spec fn is_unicode_whitespace(c: char) -> bool {
    let v = c as u32;
    (0x09 <= v && v <= 0x0d) || v == 0x20 || v == 0x85 || v == 0xa0 || v == 0x1680 || (0x2000 <= v
        && v <= 0x200a) || v == 0x2028 || v == 0x2029 || v == 0x202f || v == 0x205f || v == 0x3000
}

/// Whether the text is empty once surrounding whitespace is trimmed.
pub open spec fn is_blank_text(s: Seq<char>) -> bool {
    forall|i: int| 0 <= i < s.len() ==> is_unicode_whitespace(s[i])
}

fn is_whitespace_char(c: char) -> (r: bool)
    ensures
        r == is_unicode_whitespace(c),
{
    let v = c as u32;
    (0x09 <= v && v <= 0x0d) || v == 0x20 || v == 0x85 || v == 0xa0 || v == 0x1680 || (0x2000 <= v
        && v <= 0x200a) || v == 0x2028 || v == 0x2029 || v == 0x202f || v == 0x205f || v == 0x3000
}

/// Whether `s.trim()` is empty.
pub fn is_blank(s: &str) -> (r: bool)
    ensures
        r == is_blank_text(s@),
{
    let n = s.unicode_len();
    let mut i: usize = 0;
    while i < n
        invariant
            n == s@.len(),
            i <= n,
            forall|k: int| 0 <= k < i ==> is_unicode_whitespace(s@[k]),
        decreases n - i,
    {
        if !is_whitespace_char(s.get_char(i)) {
            return false;
        }
        i = i + 1;
    }
    true
}

/// The character of a decimal digit.
pub open spec fn digit_char(d: nat) -> char {
    ((d + 48) as u32) as char
}

/// Decimal rendering of a natural number, without leading zeros.
pub open spec fn decimal(n: nat) -> Seq<char>
    decreases n,
{
    if n < 10 {
        seq![digit_char(n)]
    } else {
        decimal(n / 10).push(digit_char(n % 10))
    }
}

fn digit_text(d: u64) -> (s: &'static str)
    requires
        d < 10,
    ensures
        s@ == seq![digit_char(d as nat)],
{
    proof {
        reveal_strlit("0");
        reveal_strlit("1");
        reveal_strlit("2");
        reveal_strlit("3");
        reveal_strlit("4");
        reveal_strlit("5");
        reveal_strlit("6");
        reveal_strlit("7");
        reveal_strlit("8");
        reveal_strlit("9");
    }
    let s = if d == 0 {
        "0"
    } else if d == 1 {
        "1"
    } else if d == 2 {
        "2"
    } else if d == 3 {
        "3"
    } else if d == 4 {
        "4"
    } else if d == 5 {
        "5"
    } else if d == 6 {
        "6"
    } else if d == 7 {
        "7"
    } else if d == 8 {
        "8"
    } else {
        "9"
    };
    assert(s@ =~= seq![digit_char(d as nat)]);
    s
}

/// Decimal rendering of `n` (what `{}` prints for an unsigned integer).
pub fn decimal_text(n: u64) -> (s: String)
    ensures
        s@ == decimal(n as nat),
    decreases n,
{
    if n < 10 {
        owned(digit_text(n))
    } else {
        let mut s = decimal_text(n / 10);
        s.append(digit_text(n % 10));
        assert(s@ =~= decimal(n as nat));
        s
    }
}

} // verus!
