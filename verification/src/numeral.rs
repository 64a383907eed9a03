//! Decimal numbers as text: the numerals that are read as decimals, and the
//! fixed notation in which decimals are written.

use crate::decimal::{magnitude, Decimal};
use crate::text::{
    all_digits, chars_of, digit_of, digit_run, digit_value, digits_value, is_digit, scan_digits,
};
use vstd::prelude::*;
use vstd::string::StringExecFns;

verus! {

/// Whether `c` is a sign character.
pub open spec fn is_sign(c: char) -> bool {
    c == '+' || c == '-'
}

/// Whether `c` introduces an exponent.
pub open spec fn is_exponent_mark(c: char) -> bool {
    c == 'e' || c == 'E'
}

/// `count` zeros.
pub open spec fn zeros(count: int) -> Seq<char> {
    Seq::new(count as nat, |i: int| '0')
}

/// The first `count` of the digits `digits`, with zeros added at the end
/// where there are fewer; nothing for a count of zero or less.
pub open spec fn leading_digits(digits: Seq<char>, count: int) -> Seq<char> {
    if count <= 0 {
        Seq::empty()
    } else if count <= digits.len() {
        digits.take(count)
    } else {
        digits + zeros(count - digits.len())
    }
}

/// Where the parts of a numeral lie in its text: the digits before the point
/// in `start..whole_end`, those after it in `fraction_start..fraction_end`,
/// those of the exponent in `exponent_start..exponent_end`. `falling` tells
/// whether the exponent has a minus sign.
pub struct NumeralShape {
    pub start: int,
    pub whole_end: int,
    pub fraction_start: int,
    pub fraction_end: int,
    pub has_exponent: bool,
    pub falling: bool,
    pub exponent_start: int,
    pub exponent_end: int,
}

/// The parts of `s`, read as far as it follows the form of a numeral: an
/// optional sign, digits, optionally a point and more digits, and optionally
/// an exponent, which is `e` or `E`, an optional sign, and digits.
pub open spec fn shape_of(s: Seq<char>) -> NumeralShape {
    let start: int = if s.len() > 0 && is_sign(s[0]) { 1 } else { 0 };
    let whole_end = digit_run(s, start);
    let fraction_start = if whole_end < s.len() && s[whole_end] == '.' {
        whole_end + 1
    } else {
        whole_end
    };
    let fraction_end = digit_run(s, fraction_start);
    let has_exponent = fraction_end < s.len() && is_exponent_mark(s[fraction_end]);
    let signed = has_exponent && fraction_end + 1 < s.len() && is_sign(s[fraction_end + 1]);
    let falling = signed && s[fraction_end + 1] == '-';
    let exponent_start = if signed {
        fraction_end + 2
    } else if has_exponent {
        fraction_end + 1
    } else {
        fraction_end
    };
    let exponent_end = if has_exponent { digit_run(s, exponent_start) } else { fraction_end };
    NumeralShape {
        start,
        whole_end,
        fraction_start,
        fraction_end,
        has_exponent,
        falling,
        exponent_start,
        exponent_end,
    }
}

/// Whether `s` is a numeral: its parts take up the whole text, it has a
/// digit before or after the point, and an exponent, if there is one, has a
/// digit.
pub open spec fn is_numeral(s: Seq<char>) -> bool {
    let shape = shape_of(s);
    &&& shape.exponent_end == s.len()
    &&& (shape.whole_end - shape.start) + (shape.fraction_end - shape.fraction_start) >= 1
    &&& shape.has_exponent ==> shape.exponent_end > shape.exponent_start
}

/// The exponent that the numeral `s` gives; 0 if it gives none.
pub open spec fn exponent_of(s: Seq<char>) -> int {
    let shape = shape_of(s);
    let size = digits_value(s.subrange(shape.exponent_start, shape.exponent_end));
    if shape.falling {
        -size
    } else {
        size
    }
}

/// All digits of the numeral `s` before its exponent, those before the point
/// and those after it.
pub open spec fn mantissa_of(s: Seq<char>) -> Seq<char> {
    let shape = shape_of(s);
    s.subrange(shape.start, shape.whole_end) + s.subrange(
        shape.fraction_start,
        shape.fraction_end,
    )
}

/// The value, in millionths, of a decimal numeral such as `15.5`, `-0.030`,
/// `.5`, `7.` or `1.2e3`. The exponent moves the point; what then stands
/// beyond the sixth place after the point is cut off. `None` for a text that
/// is no numeral, and for a numeral whose value cannot be represented.
pub open spec fn numeral_micros(s: Seq<char>) -> Option<int> {
    if is_numeral(s) {
        let shape = shape_of(s);
        let size = digits_value(
            leading_digits(mantissa_of(s), (shape.whole_end - shape.start) + exponent_of(s) + 6),
        );
        let value = if s[0] == '-' { -size } else { size };
        if i64::MIN <= value <= i64::MAX {
            Some(value)
        } else {
            None
        }
    } else {
        None
    }
}

/// The character that writes the digit `d`.
pub open spec fn digit_char(d: int) -> char {
    if d == 0 {
        '0'
    } else if d == 1 {
        '1'
    } else if d == 2 {
        '2'
    } else if d == 3 {
        '3'
    } else if d == 4 {
        '4'
    } else if d == 5 {
        '5'
    } else if d == 6 {
        '6'
    } else if d == 7 {
        '7'
    } else if d == 8 {
        '8'
    } else {
        '9'
    }
}

/// The digits that write `n` in base ten, without leading zeros; `0` for
/// zero.
pub open spec fn decimal_digits(n: nat) -> Seq<char>
    decreases n,
{
    if n < 10 {
        seq![digit_char(n as int)]
    } else {
        decimal_digits(n / 10).push(digit_char((n % 10) as int))
    }
}

/// The last `width` digits of `n` in base ten, with leading zeros where `n`
/// has fewer.
pub open spec fn padded_digits(n: nat, width: nat) -> Seq<char>
    decreases width,
{
    if width == 0 {
        Seq::empty()
    } else {
        padded_digits(n / 10, (width - 1) as nat).push(digit_char((n % 10) as int))
    }
}

/// Ten to the power `k`, for `k` from 0 to 6.
pub open spec fn ten_to(k: int) -> int {
    if k <= 0 {
        1
    } else if k == 1 {
        10
    } else if k == 2 {
        100
    } else if k == 3 {
        1_000
    } else if k == 4 {
        10_000
    } else if k == 5 {
        100_000
    } else {
        1_000_000
    }
}

/// The size of `micros` in units of the last of `places` places after the
/// point, rounded to the nearest unit, halves away from zero. With six places
/// or more nothing is rounded.
pub open spec fn rounded_size(micros: int, places: int) -> int {
    if places >= 6 {
        magnitude(micros)
    } else {
        (magnitude(micros) + ten_to(6 - places) / 2) / ten_to(6 - places)
    }
}

/// `micros` millionths written with `places` places after the point: a minus
/// sign for a negative number, the whole part, and, unless `places` is zero,
/// a point and the places. The number is rounded as `rounded_size` says;
/// places beyond the sixth are zeros.
pub open spec fn fixed_text(micros: int, places: int) -> Seq<char> {
    let shown = if places >= 6 { 6 } else { places };
    let size = rounded_size(micros, places);
    let sign = if micros < 0 { seq!['-'] } else { Seq::<char>::empty() };
    let whole = decimal_digits((size / ten_to(shown)) as nat);
    if places <= 0 {
        sign + whole
    } else {
        sign + whole + seq!['.'] + padded_digits((size % ten_to(shown)) as nat, shown as nat)
            + zeros(places - shown)
    }
}

/// The largest size that a value can have: that of the least number.
const SIZE_LIMIT: i128 = 0x8000_0000_0000_0000;

/// The largest exponent that is read exactly.
const EXPONENT_LIMIT: i128 = 1_000_000_000_000_000_000_000_000_000_000;

/// Ten to the power `k`.
spec fn power_of_ten(k: nat) -> int
    decreases k,
{
    if k == 0 {
        1
    } else {
        10 * power_of_ten((k - 1) as nat)
    }
}

/// Digits write a number that is not negative.
proof fn lemma_digits_value_bounds(digits: Seq<char>)
    requires
        all_digits(digits),
    ensures
        digits_value(digits) >= 0,
    decreases digits.len(),
{
    if digits.len() > 0 {
        lemma_digits_value_bounds(digits.drop_last());
    }
}

/// Each zero at the end of a numeral makes its value ten times as large.
proof fn lemma_zeros_at_end(digits: Seq<char>, k: nat)
    ensures
        digits_value(digits + zeros(k as int)) == digits_value(digits) * power_of_ten(k),
    decreases k,
{
    if k > 0 {
        let longer = digits + zeros(k as int);
        assert(longer.drop_last() =~= digits + zeros(k - 1));
        lemma_zeros_at_end(digits, (k - 1) as nat);
        assert(digits_value(digits) * (10 * power_of_ten((k - 1) as nat)) == (digits_value(
            digits,
        ) * power_of_ten((k - 1) as nat)) * 10) by (nonlinear_arith);
    }
}

/// From twenty on, powers of ten are beyond every size.
proof fn lemma_power_of_ten_large(k: nat)
    requires
        k >= 20,
    ensures
        power_of_ten(k) >= 100_000_000_000_000_000_000,
    decreases k,
{
    if k == 20 {
        reveal_with_fuel(power_of_ten, 21);
    } else {
        lemma_power_of_ten_large((k - 1) as nat);
    }
}

/// A numeral with twenty or more zeros added writes zero or a number beyond
/// every size, however many zeros they are.
proof fn lemma_long_padding(digits: Seq<char>, count: int)
    requires
        all_digits(digits),
        count >= digits.len() + 20,
    ensures
        digits_value(digits) == 0 ==> digits_value(leading_digits(digits, count)) == 0,
        digits_value(digits) != 0 ==> digits_value(leading_digits(digits, count)) > SIZE_LIMIT,
{
    let k = (count - digits.len()) as nat;
    lemma_digits_value_bounds(digits);
    lemma_zeros_at_end(digits, k);
    lemma_power_of_ten_large(k);
    let v = digits_value(digits);
    let p = power_of_ten(k);
    if v != 0 {
        assert(v * p >= 100_000_000_000_000_000_000) by (nonlinear_arith)
            requires
                v >= 1,
                p >= 100_000_000_000_000_000_000,
        ;
    }
}

/// Two runs of digits, one after the other, are digits.
proof fn lemma_joined_digits(first: Seq<char>, second: Seq<char>)
    requires
        all_digits(first),
        all_digits(second),
    ensures
        all_digits(first + second),
{
}

/// The run of digits that `digit_run` finds holds digits only.
proof fn lemma_digit_run(s: Seq<char>, from: int)
    requires
        0 <= from <= s.len(),
    ensures
        from <= digit_run(s, from) <= s.len(),
        all_digits(s.subrange(from, digit_run(s, from))),
    decreases s.len() - from,
{
    if from < s.len() && is_digit(s[from]) {
        lemma_digit_run(s, from + 1);
        let end = digit_run(s, from);
        assert forall|i: int| 0 <= i < s.subrange(from, end).len() implies is_digit(
            #[trigger] s.subrange(from, end)[i],
        ) by {
            if i > 0 {
                assert(is_digit(s.subrange(from + 1, end)[i - 1]));
            }
        }
    }
}

/// The mantissa of a text holds digits only.
proof fn lemma_mantissa_digits(s: Seq<char>)
    ensures
        all_digits(mantissa_of(s)),
{
    let shape = shape_of(s);
    lemma_digit_run(s, shape.start);
    if shape.fraction_start <= s.len() {
        lemma_digit_run(s, shape.fraction_start);
    }
    lemma_joined_digits(
        s.subrange(shape.start, shape.whole_end),
        s.subrange(shape.fraction_start, shape.fraction_end),
    );
}

/// The character of a digit is a digit and stands for that digit.
proof fn lemma_digit_char(d: int)
    requires
        0 <= d <= 9,
    ensures
        is_digit(digit_char(d)),
        digit_value(digit_char(d)) == d,
{
}

/// The digits that write a number are digits, and they write that number.
proof fn lemma_decimal_digits(n: nat)
    ensures
        decimal_digits(n).len() >= 1,
        all_digits(decimal_digits(n)),
        digits_value(decimal_digits(n)) == n,
    decreases n,
{
    let digits = decimal_digits(n);
    lemma_digit_char((n % 10) as int);
    if n < 10 {
        assert(digits_value(digits) == digits_value(digits.drop_last()) * 10 + digit_value(
            digits.last(),
        ));
    } else {
        lemma_decimal_digits(n / 10);
        assert(digits.drop_last() =~= decimal_digits(n / 10));
    }
}

/// The last digits of a number that has no more digits than are asked for
/// are digits, and they write that number.
proof fn lemma_padded_digits(n: nat, width: nat)
    requires
        width <= 6,
        n < ten_to(width as int),
    ensures
        padded_digits(n, width).len() == width,
        all_digits(padded_digits(n, width)),
        digits_value(padded_digits(n, width)) == n,
    decreases width,
{
    if width > 0 {
        let digits = padded_digits(n, width);
        let shorter = padded_digits(n / 10, (width - 1) as nat);
        lemma_padded_digits(n / 10, (width - 1) as nat);
        lemma_digit_char((n % 10) as int);
        assert(digits.drop_last() =~= shorter);
    }
}

/// Digits written after other digits move those to the left by as many
/// places.
proof fn lemma_joined_value(first: Seq<char>, second: Seq<char>)
    ensures
        digits_value(first + second) == digits_value(first) * power_of_ten(second.len())
            + digits_value(second),
    decreases second.len(),
{
    if second.len() > 0 {
        let shorter = second.drop_last();
        assert((first + second).drop_last() =~= first + shorter);
        lemma_joined_value(first, shorter);
        let a = digits_value(first);
        let p = power_of_ten(shorter.len());
        assert(a * (10 * p) == (a * p) * 10) by (nonlinear_arith);
    }
}

/// A run of digits that is followed by no digit ends where `digit_run` says.
proof fn lemma_digit_run_ends(s: Seq<char>, from: int, end: int)
    requires
        0 <= from <= end <= s.len(),
        forall|i: int| from <= i < end ==> is_digit(#[trigger] s[i]),
        end == s.len() || !is_digit(s[end]),
    ensures
        digit_run(s, from) == end,
    decreases end - from,
{
    if from < end {
        lemma_digit_run_ends(s, from + 1, end);
    }
}

/// A decimal that is written with six places is read back from its text.
pub proof fn lemma_written_is_read(micros: int)
    requires
        i64::MIN <= micros <= i64::MAX,
    ensures
        numeral_micros(fixed_text(micros, 6)) == Some(micros),
{
    let size = magnitude(micros);
    let whole = decimal_digits((size / 1_000_000) as nat);
    let fraction = padded_digits((size % 1_000_000) as nat, 6);
    let sign = if micros < 0 { seq!['-'] } else { Seq::<char>::empty() };
    let text = fixed_text(micros, 6);
    lemma_decimal_digits((size / 1_000_000) as nat);
    lemma_padded_digits((size % 1_000_000) as nat, 6);
    let start = sign.len() as int;
    let whole_end = start + whole.len();
    let fraction_start = whole_end + 1;
    let fraction_end = fraction_start + 6;
    lemma_digit_run_ends(text, start, whole_end);
    lemma_digit_run_ends(text, fraction_start, fraction_end);
    assert(mantissa_of(text) == whole + fraction);
    assert(leading_digits(whole + fraction, (whole.len() + 6) as int) =~= whole + fraction);
    lemma_joined_value(whole, fraction);
    assert(power_of_ten(6) == 1_000_000) by {
        reveal_with_fuel(power_of_ten, 7);
    }
}

/// Reads the size of a numeral: the number that the first `count` digits of
/// its mantissa write, zeros added where there are fewer. The mantissa is the
/// digits in `start..whole_end` followed by those in
/// `fraction_start..fraction_end`. `None` if that number is beyond every
/// size.
fn read_size(
    chars: &Vec<char>,
    start: usize,
    whole_end: usize,
    fraction_start: usize,
    fraction_end: usize,
    count: i128,
) -> (r: Option<i128>)
    requires
        start <= whole_end <= fraction_start <= fraction_end <= chars.len(),
        all_digits(chars@.subrange(start as int, whole_end as int)),
        all_digits(chars@.subrange(fraction_start as int, fraction_end as int)),
    ensures
        ({
            let mantissa = chars@.subrange(start as int, whole_end as int) + chars@.subrange(
                fraction_start as int,
                fraction_end as int,
            );
            let size = digits_value(leading_digits(mantissa, count as int));
            match r {
                Some(v) => v == size && 0 <= v <= SIZE_LIMIT,
                None => size > SIZE_LIMIT,
            }
        }),
{
    let ghost whole = chars@.subrange(start as int, whole_end as int);
    let ghost fraction = chars@.subrange(fraction_start as int, fraction_end as int);
    let ghost mantissa = whole + fraction;
    proof {
        lemma_joined_digits(whole, fraction);
    }
    let whole_len: usize = whole_end - start;
    let given: usize = whole_len + (fraction_end - fraction_start);
    let long: i128 = given as i128 + 20;
    let kept: i128 = if count > long {
        long
    } else {
        count
    };
    let ghost digits = leading_digits(mantissa, kept as int);
    proof {
        if count > long {
            lemma_long_padding(mantissa, count as int);
            lemma_long_padding(mantissa, long as int);
        }
    }
    if kept <= 0 {
        return Some(0);
    }
    let mut acc: i128 = 0;
    let mut over: bool = false;
    let mut idx: i128 = 0;
    while idx < kept
        invariant
            start <= whole_end <= fraction_start <= fraction_end <= chars.len(),
            whole == chars@.subrange(start as int, whole_end as int),
            fraction == chars@.subrange(fraction_start as int, fraction_end as int),
            mantissa == whole + fraction,
            all_digits(mantissa),
            whole_len == whole.len(),
            given == mantissa.len(),
            kept <= given + 20,
            digits == leading_digits(mantissa, kept as int),
            0 <= idx <= kept,
            0 <= acc <= SIZE_LIMIT,
            !over ==> acc == digits_value(digits.take(idx as int)),
            over ==> digits_value(digits.take(idx as int)) > SIZE_LIMIT,
        decreases kept - idx,
    {
        assert(digits.take(idx + 1).drop_last() =~= digits.take(idx as int));
        let d: u64 = if idx < given as i128 {
            let at: usize = idx as usize;
            assert(digits[idx as int] == mantissa[idx as int]);
            if at < whole_len {
                digit_of(chars[start + at])
            } else {
                digit_of(chars[fraction_start + (at - whole_len)])
            }
        } else {
            0
        };
        if !over {
            let next: i128 = acc * 10 + d as i128;
            if next > SIZE_LIMIT {
                over = true;
            } else {
                acc = next;
            }
        }
        idx += 1;
    }
    proof {
        assert(digits.take(idx as int) =~= digits);
    }
    if over {
        None
    } else {
        Some(acc)
    }
}

/// Reads the digits in `start..end` as the size of an exponent. Beyond
/// `EXPONENT_LIMIT` the size is not told apart: the limit stands for it.
fn read_exponent_size(chars: &Vec<char>, start: usize, end: usize) -> (r: (i128, bool))
    requires
        start <= end <= chars.len(),
        all_digits(chars@.subrange(start as int, end as int)),
    ensures
        0 <= r.0 <= EXPONENT_LIMIT,
        !r.1 ==> r.0 == digits_value(chars@.subrange(start as int, end as int)),
        r.1 ==> r.0 == EXPONENT_LIMIT && digits_value(chars@.subrange(start as int, end as int))
            > EXPONENT_LIMIT,
{
    let mut acc: i128 = 0;
    let mut over: bool = false;
    let mut i: usize = start;
    while i < end
        invariant
            start <= i <= end <= chars.len(),
            all_digits(chars@.subrange(start as int, end as int)),
            0 <= acc <= EXPONENT_LIMIT,
            !over ==> acc == digits_value(chars@.subrange(start as int, i as int)),
            over ==> digits_value(chars@.subrange(start as int, i as int)) > EXPONENT_LIMIT,
        decreases end - i,
    {
        let ghost run = chars@.subrange(start as int, i + 1);
        assert(run.drop_last() =~= chars@.subrange(start as int, i as int));
        assert(is_digit(chars@.subrange(start as int, end as int)[i - start]));
        let d = digit_of(chars[i]);
        if !over {
            let next: i128 = acc * 10 + d as i128;
            if next > EXPONENT_LIMIT {
                over = true;
            } else {
                acc = next;
            }
        }
        i += 1;
    }
    if over {
        (EXPONENT_LIMIT, true)
    } else {
        (acc, false)
    }
}

/// Where the parts of a numeral lie in its text, as `shape_of` gives them,
/// and whether its exponent has a minus sign.
struct Shape {
    start: usize,
    whole_end: usize,
    fraction_start: usize,
    fraction_end: usize,
    has_exponent: bool,
    falling: bool,
    exponent_start: usize,
    exponent_end: usize,
}

/// Finds the parts of a numeral.
fn read_shape(chars: &Vec<char>) -> (sh: Shape)
    ensures
        sh.start == shape_of(chars@).start,
        sh.whole_end == shape_of(chars@).whole_end,
        sh.fraction_start == shape_of(chars@).fraction_start,
        sh.fraction_end == shape_of(chars@).fraction_end,
        sh.has_exponent == shape_of(chars@).has_exponent,
        sh.exponent_start == shape_of(chars@).exponent_start,
        sh.exponent_end == shape_of(chars@).exponent_end,
        sh.falling == shape_of(chars@).falling,
        sh.start <= sh.whole_end <= sh.fraction_start <= sh.fraction_end <= sh.exponent_start
            <= sh.exponent_end <= chars.len(),
        all_digits(chars@.subrange(sh.start as int, sh.whole_end as int)),
        all_digits(chars@.subrange(sh.fraction_start as int, sh.fraction_end as int)),
        all_digits(chars@.subrange(sh.exponent_start as int, sh.exponent_end as int)),
{
    let n = chars.len();
    let start: usize = if n > 0 && (chars[0] == '+' || chars[0] == '-') {
        1
    } else {
        0
    };
    let whole_end = scan_digits(chars, start);
    let fraction_start: usize = if whole_end < n && chars[whole_end] == '.' {
        whole_end + 1
    } else {
        whole_end
    };
    let fraction_end = scan_digits(chars, fraction_start);
    let has_exponent = fraction_end < n && (chars[fraction_end] == 'e' || chars[fraction_end]
        == 'E');
    let mut falling = false;
    let mut exponent_start: usize = fraction_end;
    let mut exponent_end: usize = fraction_end;
    if has_exponent {
        exponent_start = fraction_end + 1;
        if exponent_start < n && (chars[exponent_start] == '+' || chars[exponent_start] == '-') {
            falling = chars[exponent_start] == '-';
            exponent_start = exponent_start + 1;
        }
        exponent_end = scan_digits(chars, exponent_start);
    }
    Shape {
        start,
        whole_end,
        fraction_start,
        fraction_end,
        has_exponent,
        falling,
        exponent_start,
        exponent_end,
    }
}

/// The text of the digit `d`.
fn digit_text(d: u64) -> (t: &'static str)
    requires
        d <= 9,
    ensures
        t@ == seq![digit_char(d as int)],
{
    proof {
        reveal_strlit("0");
        reveal_strlit("1");
        reveal_strlit("2");
        reveal_strlit("3");
        reveal_strlit("4");
        reveal_strlit("5");
        reveal_strlit("6");
        reveal_strlit("7");
        reveal_strlit("8");
        reveal_strlit("9");
    }
    let t = if d == 0 {
        "0"
    } else if d == 1 {
        "1"
    } else if d == 2 {
        "2"
    } else if d == 3 {
        "3"
    } else if d == 4 {
        "4"
    } else if d == 5 {
        "5"
    } else if d == 6 {
        "6"
    } else if d == 7 {
        "7"
    } else if d == 8 {
        "8"
    } else {
        "9"
    };
    t
}

/// Writes `n` at the end of `out`.
fn write_digits(out: &mut String, n: u64)
    ensures
        final(out)@ == old(out)@ + decimal_digits(n as nat),
    decreases n,
{
    if n >= 10 {
        write_digits(out, n / 10);
    }
    out.append(digit_text(n % 10));
}

/// Writes the last `width` digits of `n` at the end of `out`.
fn write_padded(out: &mut String, n: u64, width: u8)
    ensures
        final(out)@ == old(out)@ + padded_digits(n as nat, width as nat),
    decreases width,
{
    if width > 0 {
        write_padded(out, n / 10, width - 1);
        out.append(digit_text(n % 10));
    }
}

/// Ten to the power `k`.
fn ten_to_the(k: u8) -> (p: u64)
    requires
        k <= 6,
    ensures
        p == ten_to(k as int),
{
    if k == 0 {
        1
    } else if k == 1 {
        10
    } else if k == 2 {
        100
    } else if k == 3 {
        1_000
    } else if k == 4 {
        10_000
    } else if k == 5 {
        100_000
    } else {
        1_000_000
    }
}

impl Decimal {
    /// The number written with `places` places after the point.
    pub fn to_text(self, places: u8) -> (text: String)
        ensures
            text@ == fixed_text(self@, places as int),
    {
        let shown: u8 = if places >= 6 {
            6
        } else {
            places
        };
        let size: u64 = if self.micros < 0 {
            (-(self.micros as i128)) as u64
        } else {
            self.micros as u64
        };
        let unit = ten_to_the(6 - shown);
        let rounded: u64 = ((size as u128 + (unit / 2) as u128) / (unit as u128)) as u64;
        let scale = ten_to_the(shown);
        let mut text = String::new();
        if self.micros < 0 {
            proof {
                reveal_strlit("-");
            }
            text.append("-");
        }
        write_digits(&mut text, rounded / scale);
        if places > 0 {
            proof {
                reveal_strlit(".");
            }
            text.append(".");
            write_padded(&mut text, rounded % scale, shown);
            let ghost before = text@;
            let mut extra: u8 = 0;
            while extra < places - shown
                invariant
                    shown <= places,
                    extra <= places - shown,
                    text@ == before + zeros(extra as int),
                decreases places - shown - extra,
            {
                proof {
                    reveal_strlit("0");
                }
                text.append("0");
                extra += 1;
            }
        }
        text
    }
}

impl Decimal {
    /// Reads a decimal numeral.
    pub fn parse_chars(chars: &Vec<char>) -> (r: Option<Decimal>)
        ensures
            r is Some <==> numeral_micros(chars@) is Some,
            r is Some ==> r->0@ == numeral_micros(chars@)->0,
    {
        let sh = read_shape(chars);
        if sh.exponent_end != chars.len() || (sh.whole_end - sh.start) + (sh.fraction_end
            - sh.fraction_start) == 0 || (sh.has_exponent && sh.exponent_end
            == sh.exponent_start) {
            return None;
        }
        let negative = chars[0] == '-';
        let (exponent_size, beyond) = read_exponent_size(chars, sh.exponent_start, sh.exponent_end);
        let whole_len: i128 = (sh.whole_end - sh.start) as i128;
        let count: i128 = if sh.falling {
            whole_len + 6 - exponent_size
        } else {
            whole_len + 6 + exponent_size
        };
        let ghost mantissa = mantissa_of(chars@);
        let ghost true_count = (sh.whole_end - sh.start) + exponent_of(chars@) + 6;
        proof {
            if beyond && !sh.falling {
                lemma_mantissa_digits(chars@);
                lemma_long_padding(mantissa, true_count);
                lemma_long_padding(mantissa, count as int);
            }
        }
        let size = read_size(
            chars,
            sh.start,
            sh.whole_end,
            sh.fraction_start,
            sh.fraction_end,
            count,
        );
        match size {
            None => None,
            Some(size) => {
                let value: i128 = if negative {
                    -size
                } else {
                    size
                };
                if value < i64::MIN as i128 || value > i64::MAX as i128 {
                    None
                } else {
                    Some(Decimal { micros: value as i64 })
                }
            },
        }
    }

    /// Reads a decimal numeral.
    pub fn parse(text: &str) -> (r: Option<Decimal>)
        ensures
            r is Some <==> numeral_micros(text@) is Some,
            r is Some ==> r->0@ == numeral_micros(text@)->0,
    {
        let chars = chars_of(text);
        Decimal::parse_chars(&chars)
    }
}

} // verus!
