//! Character-level helpers for decoding text.

use vstd::prelude::*;

verus! {

/// `s` cut at every occurrence of `sep`. The result is never empty: a text
/// without `sep` is its own single field, and `n` separators give `n + 1`
/// fields, some of which may be empty.
pub open spec fn split(s: Seq<char>, sep: char) -> Seq<Seq<char>>
    decreases s.len(),
{
    if s.len() == 0 {
        seq![Seq::<char>::empty()]
    } else {
        let before = split(s.drop_last(), sep);
        if s.last() == sep {
            before.push(Seq::<char>::empty())
        } else {
            before.update(before.len() - 1, before.last().push(s.last()))
        }
    }
}

/// Whether `c` is alphabetic or numeric, as `char::is_alphanumeric` reports.
pub uninterp spec fn is_alphanumeric(c: char) -> bool;

/// `char::is_alphanumeric` of std: whether the character has the Unicode
/// property Alphabetic or is in one of the general categories for numbers.
/// Nothing is assumed but that the answer depends on the character alone.
pub assume_specification[ char::is_alphanumeric ](c: char) -> (b: bool)
    ensures
        b == is_alphanumeric(c),
;

/// Whether every character of `s` is alphabetic or numeric.
pub open spec fn all_alphanumeric(s: Seq<char>) -> bool {
    forall|i: int| 0 <= i < s.len() ==> is_alphanumeric(#[trigger] s[i])
}

/// Whether every character of `s` is alphabetic or numeric.
pub fn is_all_alphanumeric(s: &str) -> (b: bool)
    ensures
        b == all_alphanumeric(s@),
{
    let chars = chars_of(s);
    let mut i: usize = 0;
    while i < chars.len()
        invariant
            chars@ == s@,
            i <= chars.len(),
            forall|j: int| 0 <= j < i ==> is_alphanumeric(#[trigger] s@[j]),
        decreases chars.len() - i,
    {
        if !chars[i].is_alphanumeric() {
            return false;
        }
        i += 1;
    }
    true
}

/// Whether `c` is one of the ten decimal digits.
pub open spec fn is_digit(c: char) -> bool {
    '0' <= c && c <= '9'
}

/// The number that the digit `c` stands for.
pub open spec fn digit_value(c: char) -> int {
    c as int - '0' as int
}

/// Whether `s` consists of decimal digits only.
pub open spec fn all_digits(s: Seq<char>) -> bool {
    forall|i: int| 0 <= i < s.len() ==> is_digit(#[trigger] s[i])
}

/// The number that the digits `s` write in base ten; the empty text writes 0.
pub open spec fn digits_value(s: Seq<char>) -> int
    decreases s.len(),
{
    if s.len() == 0 {
        0
    } else {
        digits_value(s.drop_last()) * 10 + digit_value(s.last())
    }
}

/// The index at which the run of digits that starts at `from` ends.
pub open spec fn digit_run(s: Seq<char>, from: int) -> int
    decreases s.len() - from,
{
    if 0 <= from < s.len() && is_digit(s[from]) {
        digit_run(s, from + 1)
    } else {
        from
    }
}

/// The characters of `s`, in order.
pub fn chars_of(s: &str) -> (v: Vec<char>)
    ensures
        v@ == s@,
{
    let mut v: Vec<char> = Vec::new();
    for c in it: s.chars()
        invariant
            v@ == it.seq().take(it.index() as int),
            it.seq() == s@,
    {
        v.push(c);
    }
    v
}

/// Whether `a` and `b` are the same text.
pub fn same_text(a: &str, b: &str) -> (same: bool)
    ensures
        same == (a@ == b@),
{
    let x = chars_of(a);
    let y = chars_of(b);
    if x.len() != y.len() {
        return false;
    }
    let mut i: usize = 0;
    while i < x.len()
        invariant
            x@ == a@,
            y@ == b@,
            x.len() == y.len(),
            i <= x.len(),
            forall|j: int| 0 <= j < i ==> a@[j] == b@[j],
        decreases x.len() - i,
    {
        if x[i] != y[i] {
            return false;
        }
        i += 1;
    }
    assert(a@ =~= b@);
    true
}

/// Cuts `s` at every occurrence of `sep`.
pub fn split_fields<'a>(s: &'a str, sep: char) -> (fields: Vec<&'a str>)
    ensures
        fields@.len() == split(s@, sep).len(),
        forall|k: int| 0 <= k < fields@.len() ==> (#[trigger] fields@[k])@ == split(s@, sep)[k],
{
    let chars = chars_of(s);
    let mut fields: Vec<&'a str> = Vec::new();
    let mut start: usize = 0;
    let mut i: usize = 0;
    while i < chars.len()
        invariant
            chars@ == s@,
            0 <= start <= i <= chars.len(),
            split(s@.take(i as int), sep).len() == fields@.len() + 1,
            forall|k: int|
                0 <= k < fields@.len() ==> (#[trigger] fields@[k])@ == split(
                    s@.take(i as int),
                    sep,
                )[k],
            split(s@.take(i as int), sep).last() == s@.subrange(start as int, i as int),
        decreases chars.len() - i,
    {
        assert(s@.take(i + 1).drop_last() =~= s@.take(i as int));
        if chars[i] == sep {
            fields.push(s.substring_char(start, i));
            start = i + 1;
        }
        i += 1;
    }
    assert(s@.take(i as int) =~= s@);
    fields.push(s.substring_char(start, i));
    fields
}

/// Whether `c` is a decimal digit.
pub fn is_digit_char(c: char) -> (b: bool)
    ensures
        b == is_digit(c),
{
    c >= '0' && c <= '9'
}

/// The number that the digit `c` stands for.
pub fn digit_of(c: char) -> (d: u64)
    requires
        is_digit(c),
    ensures
        d == digit_value(c),
        d <= 9,
{
    (c as u64) - ('0' as u64)
}

/// Finds the end of the run of digits that starts at `from`.
pub fn scan_digits(chars: &Vec<char>, from: usize) -> (end: usize)
    requires
        from <= chars.len(),
    ensures
        end == digit_run(chars@, from as int),
        from <= end <= chars.len(),
        all_digits(chars@.subrange(from as int, end as int)),
        end < chars.len() ==> !is_digit(chars@[end as int]),
{
    let mut i: usize = from;
    while i < chars.len() && is_digit_char(chars[i])
        invariant
            from <= i <= chars.len(),
            digit_run(chars@, from as int) == digit_run(chars@, i as int),
            forall|j: int| from <= j < i ==> is_digit(#[trigger] chars@[j]),
        decreases chars.len() - i,
    {
        i += 1;
    }
    i
}

/// The value of an unsigned numeral: an optional `+`, then one or more
/// digits. `None` for any other text, and for a value above `u64::MAX`.
pub open spec fn unsigned_value(s: Seq<char>) -> Option<int> {
    let start: int = if s.len() > 0 && s[0] == '+' { 1 } else { 0 };
    let digits = s.subrange(start, s.len() as int);
    if digits.len() >= 1 && all_digits(digits) && digits_value(digits) <= u64::MAX {
        Some(digits_value(digits))
    } else {
        None
    }
}

/// Reads an unsigned numeral.
pub fn parse_u64(text: &str) -> (r: Option<u64>)
    ensures
        r is Some <==> unsigned_value(text@) is Some,
        r is Some ==> r->0 == unsigned_value(text@)->0,
{
    let chars = chars_of(text);
    let n = chars.len();
    let start: usize = if n > 0 && chars[0] == '+' { 1 } else { 0 };
    let end = scan_digits(&chars, start);
    if end != n || end == start {
        proof {
            if end != n {
                assert(!is_digit(chars@.subrange(start as int, n as int)[end - start]));
            }
        }
        return None;
    }
    let mut acc: u64 = 0;
    let mut over: bool = false;
    let mut i: usize = start;
    while i < n
        invariant
            start <= i <= n,
            n == chars.len(),
            all_digits(chars@.subrange(start as int, n as int)),
            !over ==> acc == digits_value(chars@.subrange(start as int, i as int)),
            over ==> digits_value(chars@.subrange(start as int, i as int)) > u64::MAX,
        decreases n - i,
    {
        let ghost run = chars@.subrange(start as int, i + 1);
        assert(run.drop_last() =~= chars@.subrange(start as int, i as int));
        assert(is_digit(chars@.subrange(start as int, n as int)[i - start]));
        let d = digit_of(chars[i]);
        if !over {
            let next: u128 = acc as u128 * 10 + d as u128;
            if next > u64::MAX as u128 {
                over = true;
            } else {
                acc = next as u64;
            }
        }
        i += 1;
    }
    if over {
        None
    } else {
        Some(acc)
    }
}

} // verus!
