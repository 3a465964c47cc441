//! Text utilities: substring search and decimal rendering.
//!
//! The error classifier scans raw failure text for known markers, and the
//! error messages carry decimal renderings of counts and balances; both are
//! implemented and specified here over `Seq<char>` views.

use vstd::prelude::*;

verus! {

/// The characters of `pat` occur in `text` starting at position `i`.
pub open spec fn matches_at(text: Seq<char>, pat: Seq<char>, i: int) -> bool {
    &&& 0 <= i
    &&& i + pat.len() <= text.len()
    &&& text.subrange(i, i + pat.len() as int) == pat
}

/// `pat` occurs somewhere in `text` as a contiguous run of characters.
pub open spec fn str_contains(text: Seq<char>, pat: Seq<char>) -> bool {
    exists|i: int| matches_at(text, pat, i)
}

/// Substring search: does `text` contain `pat`?
pub fn contains_sub(text: &str, pat: &str) -> (r: bool)
    ensures
        r == str_contains(text@, pat@),
{
    let n: usize = text.unicode_len();
    let m: usize = pat.unicode_len();
    if m > n {
        assert(forall|i: int| !matches_at(text@, pat@, i));
        return false;
    }
    if m == 0 {
        proof {
            assert(text@.subrange(0, 0) =~= pat@);
            assert(matches_at(text@, pat@, 0));
        }
        return true;
    }
    let mut i: usize = 0;
    while i <= n - m
        invariant
            m <= n == text@.len(),
            m == pat@.len(),
            m >= 1,
            i <= n - m + 1,
            forall|j: int| 0 <= j < i ==> !matches_at(text@, pat@, j),
        decreases n - m - i + 1,
    {
        let mut k: usize = 0;
        let mut mismatch = false;
        while k < m
            invariant
                m <= n == text@.len(),
                m == pat@.len(),
                i + m <= n,
                k <= m,
                !mismatch ==> forall|t: int| 0 <= t < k ==> text@[i + t] == pat@[t],
                mismatch ==> !matches_at(text@, pat@, i as int),
            decreases m - k,
        {
            if text.get_char(i + k) != pat.get_char(k) {
                proof {
                    assert(text@.subrange(i as int, i + m) != pat@) by {
                        assert(text@.subrange(i as int, i + m)[k as int] != pat@[k as int]);
                    }
                }
                mismatch = true;
                k = m;
            } else {
                k = k + 1;
            }
        }
        if !mismatch {
            proof {
                assert(text@.subrange(i as int, i + m) =~= pat@);
                assert(matches_at(text@, pat@, i as int));
            }
            return true;
        }
        i = i + 1;
    }
    proof {
        assert(forall|j: int| 0 <= j < i ==> !matches_at(text@, pat@, j));
        assert(forall|j: int| j >= i ==> !matches_at(text@, pat@, j));
    }
    false
}

/// Character-wise string equality.
pub fn str_eq(a: &str, b: &str) -> (r: bool)
    ensures
        r == (a@ == b@),
{
    let n: usize = a.unicode_len();
    let m: usize = b.unicode_len();
    if n != m {
        return false;
    }
    let mut i: usize = 0;
    while i < n
        invariant
            n == a@.len() && n == b@.len(),
            i <= n,
            forall|j: int| 0 <= j < i ==> a@[j] == b@[j],
        decreases n - i,
    {
        if a.get_char(i) != b.get_char(i) {
            return false;
        }
        i = i + 1;
    }
    proof {
        assert(a@ =~= b@);
    }
    true
}

/// The character for one decimal digit.
pub open spec fn digit_char(d: int) -> char
    recommends
        0 <= d < 10,
{
    if d == 0 {
        '0'
    } else if d == 1 {
        '1'
    } else if d == 2 {
        '2'
    } else if d == 3 {
        '3'
    } else if d == 4 {
        '4'
    } else if d == 5 {
        '5'
    } else if d == 6 {
        '6'
    } else if d == 7 {
        '7'
    } else if d == 8 {
        '8'
    } else {
        '9'
    }
}

/// The decimal rendering of `n`, most significant digit first, no leading
/// zeroes (a single `'0'` for zero).
pub open spec fn dec_digits(n: nat) -> Seq<char>
    decreases n,
{
    if n < 10 {
        seq![digit_char(n as int)]
    } else {
        dec_digits(n / 10).push(digit_char((n % 10) as int))
    }
}

/// One decimal digit as an owned one-character string.
fn digit_string(d: u8) -> (r: String)
    requires
        d < 10,
    ensures
        r@ =~= seq![digit_char(d as int)],
{
    proof {
        reveal_strlit("0");
        reveal_strlit("1");
        reveal_strlit("2");
        reveal_strlit("3");
        reveal_strlit("4");
        reveal_strlit("5");
        reveal_strlit("6");
        reveal_strlit("7");
        reveal_strlit("8");
        reveal_strlit("9");
    }
    if d == 0 {
        String::from_str("0")
    } else if d == 1 {
        String::from_str("1")
    } else if d == 2 {
        String::from_str("2")
    } else if d == 3 {
        String::from_str("3")
    } else if d == 4 {
        String::from_str("4")
    } else if d == 5 {
        String::from_str("5")
    } else if d == 6 {
        String::from_str("6")
    } else if d == 7 {
        String::from_str("7")
    } else if d == 8 {
        String::from_str("8")
    } else {
        String::from_str("9")
    }
}

/// Renders `n` in decimal.
pub fn u128_to_dec(n: u128) -> (r: String)
    ensures
        r@ == dec_digits(n as nat),
    decreases n,
{
    if n < 10 {
        digit_string(n as u8)
    } else {
        let mut s = u128_to_dec(n / 10);
        let d = digit_string((n % 10) as u8);
        s.append(d.as_str());
        proof {
            assert(s@ =~= dec_digits(n as nat));
        }
        s
    }
}

/// Six zero-padded decimal digits of `f` (which is below one million).
pub open spec fn frac6_digits(f: int) -> Seq<char>
    recommends
        0 <= f < 1000000,
{
    seq![
        digit_char(f / 100000 % 10),
        digit_char(f / 10000 % 10),
        digit_char(f / 1000 % 10),
        digit_char(f / 100 % 10),
        digit_char(f / 10 % 10),
        digit_char(f % 10),
    ]
}

/// The display form of a raw balance amount, in whole display units with six
/// fractional digits (one display unit is `10^12` raw units; the fractional
/// part is truncated to six digits).
pub open spec fn display_units(units: int) -> Seq<char>
    recommends
        units >= 0,
{
    dec_digits((units / 1000000000000) as nat) + seq!['.'] + frac6_digits(
        units % 1000000000000 / 1000000,
    )
}

/// Renders a raw balance amount as whole display units with six fractional
/// digits, e.g. `1234567000000` raw units as `1.234567`.
pub fn units_to_display(units: u128) -> (r: String)
    ensures
        r@ == display_units(units as int),
{
    let mut s = u128_to_dec(units / 1000000000000);
    proof {
        reveal_strlit(".");
    }
    s.append(".");
    let f: u128 = units % 1000000000000 / 1000000;
    let d0 = digit_string((f / 100000 % 10) as u8);
    s.append(d0.as_str());
    let d1 = digit_string((f / 10000 % 10) as u8);
    s.append(d1.as_str());
    let d2 = digit_string((f / 1000 % 10) as u8);
    s.append(d2.as_str());
    let d3 = digit_string((f / 100 % 10) as u8);
    s.append(d3.as_str());
    let d4 = digit_string((f / 10 % 10) as u8);
    s.append(d4.as_str());
    let d5 = digit_string((f % 10) as u8);
    s.append(d5.as_str());
    proof {
        assert(s@ =~= display_units(units as int));
    }
    s
}

/// The preview of a long entry: its first twenty and last sixteen
/// characters with an ellipsis between, or the whole entry when it has at
/// most forty characters.
pub open spec fn spec_preview(s: Seq<char>) -> Seq<char> {
    if s.len() > 40 {
        s.subrange(0, 20) + "..."@ + s.subrange(s.len() - 16, s.len() as int)
    } else {
        s
    }
}

/// Shortens a long entry for display: first twenty characters, an ellipsis,
/// last sixteen.
pub fn entry_preview(s: &str) -> (r: String)
    ensures
        r@ == spec_preview(s@),
{
    let n: usize = s.unicode_len();
    if n > 40 {
        let head = s.substring_char(0, 20);
        let tail = s.substring_char(n - 16, n);
        let mut r = String::from_str(head);
        r.append("...");
        r.append(tail);
        r
    } else {
        String::from_str(s)
    }
}

} // verus!
