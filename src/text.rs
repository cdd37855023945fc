//! Building blocks of the report's text: decimal numerals, repeated rules and
//! fixed-width columns.

use vstd::prelude::*;

verus! {

/// The numeral of one decimal digit.
pub open spec fn digit_text_of(d: nat) -> Seq<char> {
    if d == 0 {
        "0"@
    } else if d == 1 {
        "1"@
    } else if d == 2 {
        "2"@
    } else if d == 3 {
        "3"@
    } else if d == 4 {
        "4"@
    } else if d == 5 {
        "5"@
    } else if d == 6 {
        "6"@
    } else if d == 7 {
        "7"@
    } else if d == 8 {
        "8"@
    } else {
        "9"@
    }
}

/// The decimal numeral of `n`, without leading zeros.
pub open spec fn decimal_of(n: nat) -> Seq<char>
    decreases n,
{
    if n < 10 {
        digit_text_of(n)
    } else {
        decimal_of(n / 10) + digit_text_of(n % 10)
    }
}

/// `s` written `k` times in a row.
pub open spec fn repeat_of(s: Seq<char>, k: nat) -> Seq<char>
    decreases k,
{
    if k == 0 {
        Seq::empty()
    } else {
        repeat_of(s, (k - 1) as nat) + s
    }
}

/// The blanks that bring a text of `len` characters up to `width`.
pub open spec fn fill_of(len: nat, width: nat) -> Seq<char> {
    if len < width {
        repeat_of(" "@, (width - len) as nat)
    } else {
        Seq::empty()
    }
}

/// `s` left-aligned in a column of `width` characters.
pub open spec fn left_aligned(s: Seq<char>, width: nat) -> Seq<char> {
    s + fill_of(s.len(), width)
}

/// `s` right-aligned in a column of `width` characters.
pub open spec fn right_aligned(s: Seq<char>, width: nat) -> Seq<char> {
    fill_of(s.len(), width) + s
}

/// The numeral of the digit `d`.
pub fn digit_text(d: u128) -> (r: &'static str)
    requires
        d < 10,
    ensures
        r@ == digit_text_of(d as nat),
{
    if d == 0 {
        "0"
    } else if d == 1 {
        "1"
    } else if d == 2 {
        "2"
    } else if d == 3 {
        "3"
    } else if d == 4 {
        "4"
    } else if d == 5 {
        "5"
    } else if d == 6 {
        "6"
    } else if d == 7 {
        "7"
    } else if d == 8 {
        "8"
    } else {
        "9"
    }
}

/// The decimal numeral of `n`.
pub fn decimal_text(n: u128) -> (r: String)
    ensures
        r@ == decimal_of(n as nat),
    decreases n,
{
    if n < 10 {
        String::from_str(digit_text(n))
    } else {
        let mut s = decimal_text(n / 10);
        s.append(digit_text(n % 10));
        s
    }
}

/// `s` written `k` times in a row.
pub fn repeat_text(s: &str, k: usize) -> (r: String)
    ensures
        r@ == repeat_of(s@, k as nat),
{
    let mut out = String::new();
    let mut i: usize = 0;
    while i < k
        invariant
            i <= k,
            out@ == repeat_of(s@, i as nat),
        decreases k - i,
    {
        out.append(s);
        i = i + 1;
    }
    out
}

/// `s` followed by blanks up to `width` characters.
pub fn pad_right(s: &str, width: usize) -> (r: String)
    ensures
        r@ == left_aligned(s@, width as nat),
{
    let len = s.unicode_len();
    let mut out = String::from_str(s);
    if len < width {
        let fill = repeat_text(" ", width - len);
        out.append(fill.as_str());
    }
    out
}

/// Blanks up to `width` characters followed by `s`.
pub fn pad_left(s: &str, width: usize) -> (r: String)
    ensures
        r@ == right_aligned(s@, width as nat),
{
    let len = s.unicode_len();
    let mut out = String::new();
    if len < width {
        out = repeat_text(" ", width - len);
    }
    out.append(s);
    out
}

} // verus!
