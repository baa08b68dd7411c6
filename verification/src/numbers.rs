//! Fixed-point decimals and the reading of decorated numeric text.
//!
//! Values are kept in millionths. Text is read exactly, digit by digit: the
//! value of a numeral is the number that its digits spell, shifted by its
//! exponent where it has one, cut off after the digits that the target scale
//! keeps, and saturated where it leaves the range of a 64-bit integer. The
//! word for infinity reads as the largest number in range. What is not a
//! number has no decimal and reads as the "not a number" sentinel.

use crate::text::{
    chars_of, find_char, first_index_of, lacks, lemma_first_index_of,
    lemma_first_index_of_bounds, lemma_strip_leading_is_skip, lemma_strip_leading_lacks,
    lemma_trim_end_is_take, lemma_trim_lacks, lemma_trim_start_is_skip,
    lemma_without_char_lacks, lemma_without_currency_marker_lacks, remove_char,
    remove_currency_marker, slice_of, strip_leading, strip_leading_char, trim, trimmed,
    without_char, without_currency_marker,
};
use vstd::prelude::*;

verus! {

/// Millionths in one unit.
pub const MICROS_PER_UNIT: i64 = 1_000_000;

/// The number of fractional digits that a [`Decimal`] keeps.
pub const DECIMAL_SCALE: usize = 6;

/// The value that stands for "no data" in a numeric field.
pub const MISSING: i64 = -404;

/// The value that stands for "text present but not a number" in a numeric field.
pub const UNPARSABLE: i64 = -500;

/// A decimal number in fixed point, held as a count of millionths.
#[derive(Clone, Copy, Debug, PartialEq, Eq, Structural, Hash)]
pub struct Decimal {
    pub micros: i64,
}

impl Decimal {
    /// The "no data" sentinel as a decimal.
    pub open spec fn spec_missing() -> Decimal {
        Decimal { micros: -404_000_000i64 }
    }

    /// The "not a number" sentinel as a decimal.
    pub open spec fn spec_unparsable() -> Decimal {
        Decimal { micros: -500_000_000i64 }
    }

    /// The decimal of `micros` millionths.
    pub fn from_micros(micros: i64) -> (d: Decimal)
        ensures
            d.micros == micros,
    {
        Decimal { micros }
    }

    /// Zero.
    pub fn zero() -> (d: Decimal)
        ensures
            d.micros == 0,
    {
        Decimal { micros: 0 }
    }

    /// The "no data" sentinel.
    #[verifier::when_used_as_spec(spec_missing)]
    pub fn missing() -> (d: Decimal)
        ensures
            d == Decimal::spec_missing(),
            d.micros == MISSING * MICROS_PER_UNIT,
    {
        Decimal { micros: -404_000_000i64 }
    }

    /// The "not a number" sentinel.
    #[verifier::when_used_as_spec(spec_unparsable)]
    pub fn unparsable() -> (d: Decimal)
        ensures
            d == Decimal::spec_unparsable(),
            d.micros == UNPARSABLE * MICROS_PER_UNIT,
    {
        Decimal { micros: -500_000_000i64 }
    }

    /// Whether this is zero, the default of a numeric field.
    pub fn is_zero(&self) -> (r: bool)
        ensures
            r == (self.micros == 0),
    {
        self.micros == 0
    }
}

impl View for Decimal {
    type V = int;

    /// A decimal is modelled by its count of millionths.
    open spec fn view(&self) -> int {
        self.micros as int
    }
}

impl Default for Decimal {
    fn default() -> (d: Decimal)
        ensures
            d.micros == 0,
    {
        Decimal { micros: 0 }
    }
}

/// Whether `c` is a decimal digit.
pub open spec fn is_digit(c: char) -> bool {
    '0' <= c <= '9'
}

/// The value of the digit `c`.
pub open spec fn digit_value(c: char) -> nat {
    (c as u32 - 48) as nat
}

/// Whether `s` holds digits only.
pub open spec fn all_digits(s: Seq<char>) -> bool {
    forall|i: int| 0 <= i < s.len() ==> is_digit(#[trigger] s[i])
}

/// The number that the digits `s` spell in base ten; the empty sequence spells zero.
pub open spec fn digits_value(s: Seq<char>) -> nat
    decreases s.len(),
{
    if s.len() == 0 {
        0
    } else {
        digits_value(s.drop_last()) * 10 + digit_value(s.last())
    }
}

/// The part of an unsigned numeral before its decimal point.
pub open spec fn integer_digits(s: Seq<char>) -> Seq<char> {
    s.take(first_index_of(s, '.'))
}

/// The part of an unsigned numeral after its decimal point; empty where it has no point.
pub open spec fn fraction_digits(s: Seq<char>) -> Seq<char> {
    let k = first_index_of(s, '.');
    if k < s.len() {
        s.skip(k + 1)
    } else {
        Seq::empty()
    }
}

/// An unsigned numeral: digits with at most one decimal point among them, and at
/// least one digit.
pub open spec fn is_plain_numeral(s: Seq<char>) -> bool {
    &&& all_digits(integer_digits(s))
    &&& all_digits(fraction_digits(s))
    &&& integer_digits(s).len() + fraction_digits(s).len() > 0
}

/// The first `k` digits of the fraction `f`, with zeros where `f` is shorter.
pub open spec fn fixed_width(f: Seq<char>, k: nat) -> Seq<char> {
    Seq::new(
        k,
        |j: int|
            if j < f.len() {
                f[j]
            } else {
                '0'
            },
    )
}

/// The digits of the unsigned numeral `s` times ten to the `k`, cut off at the point.
pub open spec fn scaled_digits(s: Seq<char>, k: nat) -> Seq<char> {
    integer_digits(s) + fixed_width(fraction_digits(s), k)
}

/// The unsigned numeral `s` times ten to the `k`, rounded towards zero.
pub open spec fn scaled_magnitude(s: Seq<char>, k: nat) -> nat {
    digits_value(scaled_digits(s, k))
}

/// `n`, or the largest 64-bit integer where `n` is beyond it.
pub open spec fn saturated(n: nat) -> int {
    if n > i64::MAX {
        i64::MAX as int
    } else {
        n as int
    }
}

/// Whether `s` starts with an ASCII sign.
pub open spec fn has_ascii_sign(s: Seq<char>) -> bool {
    s.len() > 0 && (s[0] == '+' || s[0] == '-')
}

/// `s` without its ASCII sign, if it has one.
pub open spec fn numeral_digits(s: Seq<char>) -> Seq<char> {
    if has_ascii_sign(s) {
        s.drop_first()
    } else {
        s
    }
}

/// Minus one where `s` starts with an ASCII minus, else one.
pub open spec fn numeral_sign(s: Seq<char>) -> int {
    if s.len() > 0 && s[0] == '-' {
        -1
    } else {
        1
    }
}

/// Whether `c` marks the start of an exponent.
pub open spec fn is_exponent_mark(c: char) -> bool {
    c == 'e' || c == 'E'
}

/// The position of the first exponent mark in `s`, or the length of `s` where it
/// has none.
pub open spec fn exponent_mark(s: Seq<char>) -> int
    decreases s.len(),
{
    if s.len() == 0 {
        0
    } else if is_exponent_mark(s[0]) {
        0
    } else {
        1 + exponent_mark(s.drop_first())
    }
}

/// The part of an unsigned numeral before its exponent mark.
pub open spec fn mantissa(s: Seq<char>) -> Seq<char> {
    s.take(exponent_mark(s))
}

/// The part of an unsigned numeral after its exponent mark, where it has one.
pub open spec fn exponent_text(s: Seq<char>) -> Option<Seq<char>> {
    if exponent_mark(s) < s.len() {
        Some(s.skip(exponent_mark(s) + 1))
    } else {
        None
    }
}

/// An exponent: digits, at least one, after an ASCII sign or without one.
pub open spec fn is_exponent(x: Seq<char>) -> bool {
    numeral_digits(x).len() > 0 && all_digits(numeral_digits(x))
}

/// The power of ten that an unsigned numeral is multiplied by: the number that
/// its exponent spells, saturated, with its sign; zero where it has no exponent.
pub open spec fn exponent_of(s: Seq<char>) -> int {
    match exponent_text(s) {
        Some(x) => numeral_sign(x) * saturated(digits_value(numeral_digits(x))),
        None => 0,
    }
}

/// Whether `c` is the small letter `small` or its capital.
pub open spec fn is_letter(c: char, small: char) -> bool {
    c == small || (c as u32) + 32 == small as u32
}

/// Whether `s` spells `inf` or `infinity`, in capital or small letters.
pub open spec fn is_infinity_word(s: Seq<char>) -> bool {
    ||| {
        &&& s.len() == 3
        &&& is_letter(s[0], 'i')
        &&& is_letter(s[1], 'n')
        &&& is_letter(s[2], 'f')
    }
    ||| {
        &&& s.len() == 8
        &&& is_letter(s[0], 'i')
        &&& is_letter(s[1], 'n')
        &&& is_letter(s[2], 'f')
        &&& is_letter(s[3], 'i')
        &&& is_letter(s[4], 'n')
        &&& is_letter(s[5], 'i')
        &&& is_letter(s[6], 't')
        &&& is_letter(s[7], 'y')
    }
}

/// An unsigned numeral: digits with at most one decimal point among them and at
/// least one digit, and after them an exponent or nothing; or the word for
/// infinity.
pub open spec fn is_unsigned_numeral(s: Seq<char>) -> bool {
    ||| is_infinity_word(s)
    ||| {
        &&& is_plain_numeral(mantissa(s))
        &&& exponent_text(s) is Some ==> is_exponent(exponent_text(s)->0)
    }
}

/// The digits of a number, given by the digits before and after its decimal
/// point, times ten to the `shift`, cut off at the point.
pub open spec fn shifted_digits(whole: Seq<char>, fraction: Seq<char>, shift: int) -> Seq<char> {
    if shift >= 0 {
        whole + fixed_width(fraction, shift as nat)
    } else if whole.len() + shift > 0 {
        whole.take(whole.len() + shift)
    } else {
        Seq::empty()
    }
}

/// The unsigned numeral `s` times ten to the `k`, rounded towards zero. Infinity
/// counts as the largest number in range.
pub open spec fn unsigned_scaled(s: Seq<char>, k: nat) -> nat {
    if is_infinity_word(s) {
        i64::MAX as nat
    } else {
        digits_value(
            shifted_digits(
                integer_digits(mantissa(s)),
                fraction_digits(mantissa(s)),
                k + exponent_of(s),
            ),
        )
    }
}

/// A numeral: an unsigned numeral, after an ASCII sign or without one.
pub open spec fn is_numeral(s: Seq<char>) -> bool {
    is_unsigned_numeral(numeral_digits(s))
}

/// The numeral `s` times ten to the `k`, rounded towards zero and saturated.
pub open spec fn numeral_scaled(s: Seq<char>, k: nat) -> int {
    numeral_sign(s) * saturated(unsigned_scaled(numeral_digits(s), k))
}

/// What a saturated number becomes when one more digit is written after it.
pub open spec fn with_digit(acc: int, d: nat) -> int {
    if acc * 10 + d > i64::MAX {
        i64::MAX as int
    } else {
        acc * 10 + d
    }
}

/// Writing a digit after digits multiplies their number by ten and adds the
/// digit; saturation can be applied before or after.
pub proof fn lemma_push_digit(p: Seq<char>, c: char)
    ensures
        digits_value(p.push(c)) == digits_value(p) * 10 + digit_value(c),
        saturated(digits_value(p.push(c))) == with_digit(
            saturated(digits_value(p)),
            digit_value(c),
        ),
{
    assert(p.push(c).drop_last() =~= p);
    assert(p.push(c).last() == c);
}

/// Zeros written after a number that is zero or saturated leave it as it is.
pub proof fn lemma_trailing_zeros(whole: Seq<char>, fraction: Seq<char>, n: nat, more: nat)
    requires
        n >= fraction.len(),
        saturated(digits_value(whole + fixed_width(fraction, n))) == 0 || saturated(
            digits_value(whole + fixed_width(fraction, n)),
        ) == i64::MAX,
    ensures
        saturated(digits_value(whole + fixed_width(fraction, n + more))) == saturated(
            digits_value(whole + fixed_width(fraction, n)),
        ),
    decreases more,
{
    if more > 0 {
        lemma_trailing_zeros(whole, fraction, n, (more - 1) as nat);
        let before = whole + fixed_width(fraction, (n + more - 1) as nat);
        assert(whole + fixed_width(fraction, n + more) =~= before.push('0'));
        lemma_push_digit(before, '0');
    }
}

/// No character before position `k` is an exponent mark, and position `k` is the
/// end or holds one: `k` is the position of the exponent mark.
pub proof fn lemma_exponent_mark(s: Seq<char>, k: int)
    requires
        0 <= k <= s.len(),
        forall|i: int| 0 <= i < k ==> !is_exponent_mark(#[trigger] s[i]),
        k < s.len() ==> is_exponent_mark(s[k]),
    ensures
        exponent_mark(s) == k,
    decreases k,
{
    if k > 0 {
        let t = s.drop_first();
        assert forall|i: int| 0 <= i < k - 1 implies !is_exponent_mark(#[trigger] t[i]) by {
            assert(t[i] == s[i + 1]);
        }
        lemma_exponent_mark(t, k - 1);
    }
}

/// Whether `v` holds digits only.
pub fn holds_digits_only(v: &Vec<char>) -> (r: bool)
    ensures
        r == all_digits(v@),
{
    let mut i: usize = 0;
    while i < v.len()
        invariant
            i <= v.len(),
            forall|j: int| 0 <= j < i ==> is_digit(#[trigger] v@[j]),
        decreases v.len() - i,
    {
        if !('0' <= v[i] && v[i] <= '9') {
            return false;
        }
        i += 1;
    }
    true
}

/// Writes one more digit after a saturated number.
fn push_digit(acc: i64, c: char) -> (r: i64)
    requires
        0 <= acc,
        is_digit(c),
    ensures
        r == with_digit(acc as int, digit_value(c)),
        0 <= r,
{
    let cap: i64 = 0x7fff_ffff_ffff_ffff;
    let d: i64 = (c as u32 - 48) as i64;
    if acc > (cap - d) / 10 {
        cap
    } else {
        acc * 10 + d
    }
}

/// The number that the digits `v` spell, saturated.
fn digits_to_magnitude(v: &Vec<char>) -> (r: i64)
    requires
        all_digits(v@),
    ensures
        r == saturated(digits_value(v@)),
        0 <= r,
{
    let mut acc: i64 = 0;
    let mut i: usize = 0;
    while i < v.len()
        invariant
            i <= v.len(),
            all_digits(v@),
            0 <= acc,
            acc == saturated(digits_value(v@.take(i as int))),
        decreases v.len() - i,
    {
        proof {
            assert(v@.take(i + 1) =~= v@.take(i as int).push(v@[i as int]));
            lemma_push_digit(v@.take(i as int), v@[i as int]);
            assert(is_digit(v@[i as int]));
        }
        acc = push_digit(acc, v[i]);
        i += 1;
    }
    assert(v@.take(v.len() as int) == v@);
    acc
}

/// The position of the first exponent mark in `v`, or the length of `v`.
fn find_exponent_mark(v: &Vec<char>) -> (k: usize)
    ensures
        k == exponent_mark(v@),
        k <= v.len(),
{
    let n: usize = v.len();
    let mut k: usize = 0;
    while k < n && !(v[k] == 'e' || v[k] == 'E')
        invariant
            k <= n == v.len(),
            forall|i: int| 0 <= i < k ==> !is_exponent_mark(#[trigger] v@[i]),
        decreases n - k,
    {
        k += 1;
    }
    proof {
        lemma_exponent_mark(v@, k as int);
    }
    k
}

/// Whether `c` is the small letter `small` or its capital.
fn matches_letter(c: char, small: char) -> (r: bool)
    ensures
        r == is_letter(c, small),
{
    c == small || c as u32 + 32 == small as u32
}

/// Whether `v` spells `inf` or `infinity`, in capital or small letters.
fn spells_infinity(v: &Vec<char>) -> (r: bool)
    ensures
        r == is_infinity_word(v@),
{
    let n: usize = v.len();
    if n == 3 {
        matches_letter(v[0], 'i') && matches_letter(v[1], 'n') && matches_letter(v[2], 'f')
    } else if n == 8 {
        matches_letter(v[0], 'i') && matches_letter(v[1], 'n') && matches_letter(v[2], 'f')
            && matches_letter(v[3], 'i') && matches_letter(v[4], 'n') && matches_letter(v[5], 'i')
            && matches_letter(v[6], 't') && matches_letter(v[7], 'y')
    } else {
        false
    }
}

/// The number whose digits before and after the decimal point are given, times
/// ten to the `shift`, rounded towards zero and saturated.
fn shifted_to_magnitude(whole: &Vec<char>, fraction: &Vec<char>, shift: i128) -> (r: i64)
    requires
        all_digits(whole@),
        all_digits(fraction@),
    ensures
        r == saturated(digits_value(shifted_digits(whole@, fraction@, shift as int))),
        0 <= r,
{
    if shift < 0 {
        let keep: i128 = whole.len() as i128 + shift;
        if keep <= 0 {
            return 0;
        }
        let head = slice_of(whole, 0, keep as usize);
        assert(head@ == whole@.take(keep as int));
        return digits_to_magnitude(&head);
    }
    let mut acc: i64 = digits_to_magnitude(whole);
    let mut j: usize = 0;
    assert(whole@ + fixed_width(fraction@, 0) =~= whole@);
    while j < fraction.len() && (j as i128) < shift
        invariant
            j <= fraction.len(),
            j <= shift,
            0 <= acc,
            all_digits(fraction@),
            acc == saturated(digits_value(whole@ + fixed_width(fraction@, j as nat))),
        decreases fraction.len() - j,
    {
        proof {
            let before = whole@ + fixed_width(fraction@, j as nat);
            assert(whole@ + fixed_width(fraction@, (j + 1) as nat) =~= before.push(
                fraction@[j as int],
            ));
            lemma_push_digit(before, fraction@[j as int]);
            assert(is_digit(fraction@[j as int]));
        }
        acc = push_digit(acc, fraction[j]);
        j += 1;
    }
    if (j as i128) == shift {
        return acc;
    }
    let mut zeros: i128 = shift - j as i128;
    while zeros > 0 && acc != 0 && acc != 0x7fff_ffff_ffff_ffff
        invariant
            0 <= zeros <= shift - fraction.len(),
            0 <= acc,
            acc == saturated(
                digits_value(whole@ + fixed_width(fraction@, (shift - zeros) as nat)),
            ),
        decreases zeros,
    {
        proof {
            let before = whole@ + fixed_width(fraction@, (shift - zeros) as nat);
            assert(whole@ + fixed_width(fraction@, (shift - zeros + 1) as nat) =~= before.push(
                '0',
            ));
            lemma_push_digit(before, '0');
        }
        acc = push_digit(acc, '0');
        zeros -= 1;
    }
    proof {
        if zeros > 0 {
            lemma_trailing_zeros(whole@, fraction@, (shift - zeros) as nat, zeros as nat);
        }
    }
    acc
}

/// Reads the numeral `v` at scale `k`: its value times ten to the `k`, rounded
/// towards zero and saturated; nothing where `v` is no numeral.
pub fn read_numeral(v: &Vec<char>, k: usize) -> (r: Option<i64>)
    ensures
        r == if is_numeral(v@) {
            Some(numeral_scaled(v@, k as nat) as i64)
        } else {
            None
        },
        r is Some ==> -i64::MAX <= r->0 <= i64::MAX,
        r is Some ==> r->0 == numeral_scaled(v@, k as nat),
{
    let n: usize = v.len();
    let signed: bool = n > 0 && (v[0] == '+' || v[0] == '-');
    let negative: bool = n > 0 && v[0] == '-';
    let body: Vec<char> = if signed {
        slice_of(v, 1, n)
    } else {
        slice_of(v, 0, n)
    };
    assert(body@ == numeral_digits(v@));
    if spells_infinity(&body) {
        let cap: i64 = 0x7fff_ffff_ffff_ffff;
        proof {
            let sign = numeral_sign(v@);
            assert(sign == if negative { -1int } else { 1int });
            assert(sign * (cap as int) == if negative { -cap } else { cap as int })
                by (nonlinear_arith)
                requires
                    sign == if negative { -1int } else { 1int },
            ;
        }
        return Some(if negative { -cap } else { cap });
    }
    let mark: usize = find_exponent_mark(&body);
    let number: Vec<char> = slice_of(&body, 0, mark);
    assert(number@ == mantissa(body@));
    let dot: usize = find_char(&number, '.');
    let whole: Vec<char> = slice_of(&number, 0, dot);
    let fraction: Vec<char> = if dot < number.len() {
        slice_of(&number, dot + 1, number.len())
    } else {
        Vec::new()
    };
    assert(whole@ == integer_digits(number@));
    assert(fraction@ == fraction_digits(number@));
    if !holds_digits_only(&whole) || !holds_digits_only(&fraction) {
        return None;
    }
    if whole.len() == 0 && fraction.len() == 0 {
        return None;
    }
    let mut exponent: i128 = 0;
    if mark < body.len() {
        let x: Vec<char> = slice_of(&body, mark + 1, body.len());
        assert(x@ == exponent_text(body@)->0);
        let m: usize = x.len();
        let x_signed: bool = m > 0 && (x[0] == '+' || x[0] == '-');
        let x_negative: bool = m > 0 && x[0] == '-';
        let x_digits: Vec<char> = if x_signed {
            slice_of(&x, 1, m)
        } else {
            slice_of(&x, 0, m)
        };
        assert(x_digits@ == numeral_digits(x@));
        if x_digits.len() == 0 || !holds_digits_only(&x_digits) {
            return None;
        }
        let e: i64 = digits_to_magnitude(&x_digits);
        exponent = if x_negative {
            -(e as i128)
        } else {
            e as i128
        };
        proof {
            let sign = numeral_sign(x@);
            assert(sign == if x_negative { -1int } else { 1int });
            assert(sign * e == if x_negative { -e } else { e as int }) by (nonlinear_arith)
                requires
                    sign == if x_negative { -1int } else { 1int },
            ;
        }
    }
    assert(exponent == exponent_of(body@));
    assert(is_numeral(v@));
    let magnitude: i64 = shifted_to_magnitude(&whole, &fraction, k as i128 + exponent);
    proof {
        let sign = numeral_sign(v@);
        assert(magnitude == saturated(unsigned_scaled(body@, k as nat)));
        assert(sign == if negative { -1int } else { 1int });
        assert(sign * magnitude == if negative { -magnitude } else { magnitude as int })
            by (nonlinear_arith)
            requires
                sign == if negative { -1int } else { 1int },
        ;
    }
    if negative {
        Some(-magnitude)
    } else {
        Some(magnitude)
    }
}

/// Whether `c` is one of the glyphs that stand for a minus sign, and alone for "no data":
/// the ASCII hyphen, the em dash, the minus sign and the en dash.
pub open spec fn is_negative_glyph(c: char) -> bool {
    c == '-' || c == '\u{2014}' || c == '\u{2212}' || c == '\u{2013}'
}

/// Whether cleaned text says "no data": it is empty or a lone dash.
pub open spec fn is_blank_or_dash(s: Seq<char>) -> bool {
    s.len() == 0 || (s.len() == 1 && is_negative_glyph(s[0]))
}

/// Minus one where cleaned text starts with a negative glyph, else one.
pub open spec fn glyph_sign(s: Seq<char>) -> int {
    if s.len() > 0 && is_negative_glyph(s[0]) {
        -1
    } else {
        1
    }
}

/// Cleaned text without its leading sign glyphs: the run of `+`, then the runs of each
/// negative glyph in turn.
pub open spec fn without_sign_glyphs(s: Seq<char>) -> Seq<char> {
    strip_leading(
        strip_leading(
            strip_leading(strip_leading(strip_leading(s, '+'), '-'), '\u{2014}'),
            '\u{2212}',
        ),
        '\u{2013}',
    )
}

/// Numeric text made ready for reading: trimmed, then without percent signs,
/// thousands separators, the currency marker, quotes and blanks, removed in this
/// order.
pub open spec fn cleaned(s: Seq<char>) -> Seq<char> {
    without_char(
        without_char(
            without_currency_marker(without_char(without_char(trim(s), '%'), ',')),
            '"',
        ),
        ' ',
    )
}

/// The millionths that decimal text stands for.
///
/// Blank text or a lone dash is the "no data" sentinel. Otherwise the leading
/// sign glyphs are taken off and the rest is read as a numeral, negated where the
/// text started with a negative glyph. Text whose rest is no numeral is the
/// "not a number" sentinel.
pub open spec fn micros_of_text(s: Seq<char>) -> int {
    let c = cleaned(s);
    let u = without_sign_glyphs(c);
    if is_blank_or_dash(c) {
        MISSING * MICROS_PER_UNIT
    } else if is_numeral(u) {
        glyph_sign(c) * numeral_scaled(u, DECIMAL_SCALE as nat)
    } else {
        UNPARSABLE * MICROS_PER_UNIT
    }
}

/// Whether `c` occurs in `s`.
pub open spec fn has_char(s: Seq<char>, c: char) -> bool {
    first_index_of(s, c) < s.len()
}

/// The magnitude suffix that governs `s`: the first of `T`, `B`, `M`, `K`, in this
/// order of precedence, that occurs in it.
pub open spec fn magnitude_suffix(s: Seq<char>) -> Option<char> {
    if has_char(s, 'T') {
        Some('T')
    } else if has_char(s, 'B') {
        Some('B')
    } else if has_char(s, 'M') {
        Some('M')
    } else if has_char(s, 'K') {
        Some('K')
    } else {
        None
    }
}

/// The power of ten that a magnitude suffix multiplies by.
pub open spec fn suffix_exponent(suffix: Option<char>) -> nat {
    match suffix {
        Some('T') => 12,
        Some('B') => 9,
        Some('M') => 6,
        Some('K') => 3,
        _ => 0,
    }
}

/// The numeral of magnitude text: what stands before the first occurrence of the
/// governing suffix, trimmed; the whole text where no suffix occurs.
pub open spec fn magnitude_numeral(s: Seq<char>) -> Seq<char> {
    match magnitude_suffix(s) {
        Some(letter) => trim(s.take(first_index_of(s, letter))),
        None => s,
    }
}

/// The integer that magnitude text stands for.
///
/// The text is cleaned as decimal text is. Blank text or a lone dash is the
/// "no data" sentinel. Otherwise the leading
/// sign glyphs are taken off, the numeral before the governing suffix is
/// multiplied by the suffix's power of ten and rounded towards zero, and the
/// result is negated where the text started with a negative glyph. Text without
/// a readable numeral is the "not a number" sentinel.
pub open spec fn magnitude_of_text(s: Seq<char>) -> int {
    let c = cleaned(s);
    let u = without_sign_glyphs(c);
    if is_blank_or_dash(c) {
        MISSING as int
    } else if is_numeral(magnitude_numeral(u)) {
        glyph_sign(c) * numeral_scaled(
            magnitude_numeral(u),
            suffix_exponent(magnitude_suffix(u)),
        )
    } else {
        UNPARSABLE as int
    }
}

/// Executable test for [`is_negative_glyph`].
pub fn is_dash(c: char) -> (r: bool)
    ensures
        r == is_negative_glyph(c),
{
    c == '-' || c == '\u{2014}' || c == '\u{2212}' || c == '\u{2013}'
}

/// Makes numeric text ready for reading.
fn clean(raw: &Vec<char>) -> (r: Vec<char>)
    ensures
        r@ == cleaned(raw@),
{
    let t = trimmed(raw);
    let p = remove_char(&t, '%');
    let a = remove_char(&p, ',');
    let b = remove_currency_marker(&a);
    let c = remove_char(&b, '"');
    remove_char(&c, ' ')
}

/// Takes the leading sign glyphs off cleaned text.
fn strip_sign_glyphs(c: &Vec<char>) -> (r: Vec<char>)
    ensures
        r@ == without_sign_glyphs(c@),
{
    let a = strip_leading_char(c, '+');
    let b = strip_leading_char(&a, '-');
    let d = strip_leading_char(&b, '\u{2014}');
    let e = strip_leading_char(&d, '\u{2212}');
    strip_leading_char(&e, '\u{2013}')
}

/// Reads decimal text into a [`Decimal`].
///
/// Surrounding white space, percent signs, thousands separators, the currency
/// marker, quotes and blanks are ignored. A leading `+` or negative glyph gives
/// the sign. Blank text and a lone dash give the "no data" sentinel `-404`;
/// text that is no number gives the "not a number" sentinel `-500`.
pub fn parse_f64(s: &str) -> (d: Decimal)
    ensures
        d@ == micros_of_text(s@),
{
    let c = clean(&chars_of(s));
    if c.len() == 0 || (c.len() == 1 && is_dash(c[0])) {
        return Decimal::missing();
    }
    let negative: bool = is_dash(c[0]);
    let u = strip_sign_glyphs(&c);
    match read_numeral(&u, DECIMAL_SCALE) {
        Some(m) => {
            if negative {
                Decimal { micros: -m }
            } else {
                Decimal { micros: m }
            }
        },
        None => Decimal::unparsable(),
    }
}

/// Reads percentage text into a [`Decimal`]: the number before the percent sign,
/// not a fraction of one.
pub fn parse_percentage(s: &str) -> (d: Decimal)
    ensures
        d@ == micros_of_text(s@),
{
    parse_f64(s)
}

/// The numeral of magnitude text and the power of ten of its suffix.
fn split_magnitude(u: &Vec<char>) -> (r: (Vec<char>, usize))
    ensures
        r.0@ == magnitude_numeral(u@),
        r.1 == suffix_exponent(magnitude_suffix(u@)),
{
    let n: usize = u.len();
    let t: usize = find_char(u, 'T');
    if t < n {
        return (trimmed(&slice_of(u, 0, t)), 12);
    }
    let b: usize = find_char(u, 'B');
    if b < n {
        return (trimmed(&slice_of(u, 0, b)), 9);
    }
    let m: usize = find_char(u, 'M');
    if m < n {
        return (trimmed(&slice_of(u, 0, m)), 6);
    }
    let k: usize = find_char(u, 'K');
    if k < n {
        return (trimmed(&slice_of(u, 0, k)), 3);
    }
    (slice_of(u, 0, n), 0)
}

/// Reads magnitude text into an integer.
///
/// The text is cleaned and its sign is read as by [`parse_f64`]. A suffix `T`,
/// `B`, `M` or `K` multiplies the numeral before it by ten to the 12, 9, 6 or
/// 3; text without a suffix is read whole. The result is rounded towards zero.
/// Blank text and a lone dash give `-404`, text that is no number gives `-500`.
pub fn parse_large_number(s: &str) -> (r: i64)
    ensures
        r == magnitude_of_text(s@),
{
    let c = clean(&chars_of(s));
    if c.len() == 0 || (c.len() == 1 && is_dash(c[0])) {
        return MISSING;
    }
    let negative: bool = is_dash(c[0]);
    let u = strip_sign_glyphs(&c);
    let (numeral, k) = split_magnitude(&u);
    match read_numeral(&numeral, k) {
        Some(m) => {
            if negative {
                -m
            } else {
                m
            }
        },
        None => UNPARSABLE,
    }
}

/// An unsigned numeral is not empty and holds only digits and decimal points.
pub proof fn lemma_plain_numeral_chars(s: Seq<char>)
    requires
        is_plain_numeral(s),
    ensures
        s.len() > 0,
        forall|i: int| 0 <= i < s.len() ==> is_digit(#[trigger] s[i]) || s[i] == '.',
{
    lemma_first_index_of_bounds(s, '.');
    let k = first_index_of(s, '.');
    assert forall|i: int| 0 <= i < s.len() implies is_digit(#[trigger] s[i]) || s[i] == '.' by {
        if i < k {
            assert(integer_digits(s)[i] == s[i]);
        } else if i > k {
            assert(fraction_digits(s)[i - k - 1] == s[i]);
        }
    }
}

/// Digits with a decimal point among them, without an exponent, are a numeral,
/// and read at scale `k` as the number that their digits spell.
pub proof fn lemma_plain_numeral_reads(s: Seq<char>, k: nat)
    requires
        is_plain_numeral(s),
    ensures
        mantissa(s) == s,
        exponent_text(s) is None,
        is_unsigned_numeral(s),
        numeral_digits(s) == s,
        numeral_sign(s) == 1,
        is_numeral(s),
        numeral_scaled(s, k) == saturated(scaled_magnitude(s, k)),
{
    lemma_plain_numeral_chars(s);
    assert forall|i: int| 0 <= i < s.len() implies !is_exponent_mark(#[trigger] s[i]) by {
        assert(is_digit(s[i]) || s[i] == '.');
    }
    lemma_exponent_mark(s, s.len() as int);
    assert(s.take(s.len() as int) == s);
    assert(is_digit(s[0]) || s[0] == '.');
    assert(!is_letter(s[0], 'i'));
    assert(shifted_digits(integer_digits(s), fraction_digits(s), k as int) == scaled_digits(s, k));
}

/// An unsigned numeral without exponent has no sign glyph to take off.
proof fn lemma_plain_numeral_keeps_glyphs(s: Seq<char>)
    requires
        is_plain_numeral(s),
    ensures
        without_sign_glyphs(s) == s,
        glyph_sign(s) == 1,
        !is_blank_or_dash(s),
{
    lemma_plain_numeral_chars(s);
    assert(is_digit(s[0]) || s[0] == '.');
    lemma_strip_leading_is_skip(s, '+', 0);
    lemma_strip_leading_is_skip(s, '-', 0);
    lemma_strip_leading_is_skip(s, '\u{2014}', 0);
    lemma_strip_leading_is_skip(s, '\u{2212}', 0);
    lemma_strip_leading_is_skip(s, '\u{2013}', 0);
    assert(s.skip(0) == s);
}

/// Decimal text that is an unsigned numeral once cleaned reads as that numeral's
/// value in millionths.
pub proof fn lemma_plain_decimal_value(text: Seq<char>)
    requires
        is_plain_numeral(cleaned(text)),
    ensures
        micros_of_text(text) == saturated(
            scaled_magnitude(cleaned(text), DECIMAL_SCALE as nat),
        ),
{
    lemma_plain_numeral_keeps_glyphs(cleaned(text));
    lemma_plain_numeral_reads(cleaned(text), DECIMAL_SCALE as nat);
}

/// Decimal text that, once cleaned, is a negative glyph followed by an unsigned
/// numeral reads as the negated value of that numeral.
pub proof fn lemma_negative_glyph_negates(text: Seq<char>, glyph: char, numeral: Seq<char>)
    requires
        is_negative_glyph(glyph),
        is_plain_numeral(numeral),
        cleaned(text) == seq![glyph] + numeral,
    ensures
        micros_of_text(text) == -saturated(scaled_magnitude(numeral, DECIMAL_SCALE as nat)),
{
    let c = cleaned(text);
    lemma_plain_numeral_chars(numeral);
    lemma_plain_numeral_keeps_glyphs(numeral);
    lemma_plain_numeral_reads(numeral, DECIMAL_SCALE as nat);
    assert(c[0] == glyph);
    assert(c[1] == numeral[0]);
    assert(c.skip(1) == numeral);
    assert(c.skip(0) == c);
    assert(numeral.skip(0) == numeral);
    lemma_strip_leading_is_skip(c, '+', 0);
    if glyph == '-' {
        lemma_strip_leading_is_skip(c, '-', 1);
        lemma_strip_leading_is_skip(numeral, '\u{2014}', 0);
        lemma_strip_leading_is_skip(numeral, '\u{2212}', 0);
        lemma_strip_leading_is_skip(numeral, '\u{2013}', 0);
    } else if glyph == '\u{2014}' {
        lemma_strip_leading_is_skip(c, '-', 0);
        lemma_strip_leading_is_skip(c, '\u{2014}', 1);
        lemma_strip_leading_is_skip(numeral, '\u{2212}', 0);
        lemma_strip_leading_is_skip(numeral, '\u{2013}', 0);
    } else if glyph == '\u{2212}' {
        lemma_strip_leading_is_skip(c, '-', 0);
        lemma_strip_leading_is_skip(c, '\u{2014}', 0);
        lemma_strip_leading_is_skip(c, '\u{2212}', 1);
        lemma_strip_leading_is_skip(numeral, '\u{2013}', 0);
    } else {
        lemma_strip_leading_is_skip(c, '-', 0);
        lemma_strip_leading_is_skip(c, '\u{2014}', 0);
        lemma_strip_leading_is_skip(c, '\u{2212}', 0);
        lemma_strip_leading_is_skip(c, '\u{2013}', 1);
    }
    assert(without_sign_glyphs(c) == numeral);
    assert(c.len() >= 2);
    assert(glyph_sign(c) == -1);
    let value = saturated(scaled_magnitude(numeral, DECIMAL_SCALE as nat));
    assert(numeral_scaled(numeral, DECIMAL_SCALE as nat) == value);
    assert(micros_of_text(text) == glyph_sign(c) * value);
}

/// Of two decimal texts, where the first is an unsigned numeral once cleaned and the
/// second is the same with a negative glyph before it, the second reads as the
/// negation of the first.
pub proof fn lemma_negative_text_is_negation(plain: Seq<char>, negative: Seq<char>, glyph: char)
    requires
        is_negative_glyph(glyph),
        is_plain_numeral(cleaned(plain)),
        cleaned(negative) == seq![glyph] + cleaned(plain),
    ensures
        micros_of_text(negative) == -micros_of_text(plain),
{
    lemma_plain_decimal_value(plain);
    lemma_negative_glyph_negates(negative, glyph, cleaned(plain));
}

/// Magnitude text that, once cleaned, is an unsigned numeral followed by one of
/// the suffixes `T`, `B`, `M`, `K` reads as the numeral times the suffix's power of
/// ten, rounded towards zero.
pub proof fn lemma_suffix_scales(text: Seq<char>, numeral: Seq<char>, letter: char)
    requires
        letter == 'T' || letter == 'B' || letter == 'M' || letter == 'K',
        is_plain_numeral(numeral),
        cleaned(text) == numeral.push(letter),
    ensures
        magnitude_of_text(text) == saturated(
            scaled_magnitude(numeral, suffix_exponent(Some(letter))),
        ),
{
    let c = cleaned(text);
    let n = numeral.len() as int;
    lemma_plain_numeral_chars(numeral);
    lemma_plain_numeral_keeps_glyphs(numeral);
    lemma_plain_numeral_reads(numeral, suffix_exponent(Some(letter)));
    assert(c[0] == numeral[0]);
    assert(c.skip(0) == c);
    lemma_strip_leading_is_skip(c, '+', 0);
    lemma_strip_leading_is_skip(c, '-', 0);
    lemma_strip_leading_is_skip(c, '\u{2014}', 0);
    lemma_strip_leading_is_skip(c, '\u{2212}', 0);
    lemma_strip_leading_is_skip(c, '\u{2013}', 0);
    assert(without_sign_glyphs(c) == c);
    assert forall|i: int| 0 <= i < n implies (#[trigger] c[i]) != 'T' && c[i] != 'B' && c[i]
        != 'M' && c[i] != 'K' by {
        assert(c[i] == numeral[i]);
    }
    lemma_first_index_of(c, 'T', if letter == 'T' { n } else { n + 1 });
    lemma_first_index_of(c, 'B', if letter == 'B' { n } else { n + 1 });
    lemma_first_index_of(c, 'M', if letter == 'M' { n } else { n + 1 });
    lemma_first_index_of(c, 'K', if letter == 'K' { n } else { n + 1 });
    assert(magnitude_suffix(c) == Some(letter));
    assert(c.take(n) == numeral);
    assert(!crate::text::is_space(numeral[0]));
    assert(!crate::text::is_space(numeral[n - 1]));
    lemma_trim_start_is_skip(numeral, 0);
    assert(numeral.skip(0) == numeral);
    lemma_trim_end_is_take(numeral, n);
    assert(numeral.take(n) == numeral);
    assert(magnitude_numeral(c) == numeral);
}

/// Ten to the `n`.
pub open spec fn pow10(n: nat) -> nat
    decreases n,
{
    if n == 0 {
        1
    } else {
        10 * pow10((n - 1) as nat)
    }
}

/// The whole units of a count of millionths, rounded towards zero.
pub open spec fn truncated_units(micros: int) -> int {
    if micros >= 0 {
        micros / 1_000_000
    } else {
        -((-micros) / 1_000_000)
    }
}

/// The number that digits spell is the number of all but the last `n` of them,
/// times ten to the `n`, plus the number of the last `n`, which is below ten to
/// the `n`.
pub proof fn lemma_digits_split(s: Seq<char>, n: nat)
    requires
        all_digits(s),
        n <= s.len(),
    ensures
        digits_value(s) == digits_value(s.take(s.len() - n)) * pow10(n) + digits_value(
            s.skip(s.len() - n),
        ),
        digits_value(s.skip(s.len() - n)) < pow10(n),
    decreases n,
{
    if n == 0 {
        assert(s.take(s.len() as int) =~= s);
        assert(s.skip(s.len() as int) =~= Seq::<char>::empty());
        assert(pow10(0) == 1);
        assert(digits_value(s.skip(s.len() as int)) == 0);
        assert(digits_value(s.take(s.len() as int)) * pow10(0) == digits_value(s)) by {
            assert(digits_value(s) * 1 == digits_value(s));
        }
    } else {
        let t = s.drop_last();
        assert forall|i: int| 0 <= i < t.len() implies is_digit(#[trigger] t[i]) by {
            assert(t[i] == s[i]);
        }
        lemma_digits_split(t, (n - 1) as nat);
        let head = s.take(s.len() - n);
        let tail = s.skip(s.len() - n);
        assert(t.take(t.len() - (n - 1)) =~= head);
        assert(tail.drop_last() =~= t.skip(t.len() - (n - 1)));
        assert(tail.last() == s.last());
        assert(is_digit(s[s.len() - 1]));
        let x = digits_value(head) as int;
        let p = pow10((n - 1) as nat) as int;
        let y = digits_value(tail.drop_last()) as int;
        let d = digit_value(s.last()) as int;
        let xp = x * p;
        assert(digits_value(t) == xp + y);
        assert(digits_value(s) == digits_value(t) * 10 + d);
        assert(digits_value(s) == xp * 10 + y * 10 + d);
        assert(digits_value(tail) == y * 10 + d);
        assert(pow10(n) == 10 * p);
        assert(x * (10 * p) == xp * 10) by (nonlinear_arith)
            requires
                xp == x * p,
        ;
        assert(digits_value(s) == x * pow10(n) + digits_value(tail));
        assert(0 <= d <= 9);
        assert(y < p);
        assert(digits_value(tail) < pow10(n));
        assert(digits_value(s) == digits_value(s.take(s.len() - n)) * pow10(n) + digits_value(
            s.skip(s.len() - n),
        ));
    }
}

/// Shifting a number by six more places and cutting the last six digits off again
/// gives the number at the first shift.
pub proof fn lemma_six_more_places(whole: Seq<char>, fraction: Seq<char>, shift: int)
    requires
        all_digits(whole),
        all_digits(fraction),
    ensures
        digits_value(shifted_digits(whole, fraction, shift + 6)) / 1_000_000 == digits_value(
            shifted_digits(whole, fraction, shift),
        ),
{
    let a = shifted_digits(whole, fraction, shift);
    let b = shifted_digits(whole, fraction, shift + 6);
    assert forall|i: int| 0 <= i < b.len() implies is_digit(#[trigger] b[i]) by {
        if shift + 6 >= 0 {
            if i < whole.len() {
                assert(b[i] == whole[i]);
            } else {
                let j = i - whole.len();
                assert(b[i] == fixed_width(fraction, (shift + 6) as nat)[j]);
                if j < fraction.len() {
                    assert(is_digit(fraction[j]));
                }
            }
        } else {
            assert(b[i] == whole[i]);
        }
    }
    reveal_with_fuel(pow10, 7);
    if b.len() >= 6 {
        assert(a =~= b.take(b.len() - 6));
        lemma_digits_split(b, 6);
        assert(pow10(6) == 1_000_000);
        let x = digits_value(a) as int;
        let r = digits_value(b.skip(b.len() - 6)) as int;
        assert(digits_value(b) == x * 1_000_000 + r);
        assert(0 <= r < 1_000_000);
        assert((x * 1_000_000 + r) / 1_000_000 == x) by (nonlinear_arith)
            requires
                0 <= r < 1_000_000,
        ;
    } else {
        assert(a =~= Seq::<char>::empty());
        lemma_digits_split(b, b.len());
        assert(b.skip(0) =~= b);
        assert(digits_value(a) == 0);
        assert(pow10(b.len()) <= 100_000) by {
            if b.len() == 0 {
            } else if b.len() == 1 {
            } else if b.len() == 2 {
            } else if b.len() == 3 {
            } else if b.len() == 4 {
            } else {
                assert(b.len() == 5);
            }
        }
    }
}

/// Cleaning text and taking off its sign glyphs brings in no character.
pub proof fn lemma_cleaning_lacks(text: Seq<char>, c: char)
    requires
        lacks(text, c),
    ensures
        lacks(cleaned(text), c),
        lacks(without_sign_glyphs(cleaned(text)), c),
        !has_char(without_sign_glyphs(cleaned(text)), c),
{
    lemma_trim_lacks(text, c);
    let a = without_char(trim(text), '%');
    lemma_without_char_lacks(trim(text), '%', c);
    let b = without_char(a, ',');
    lemma_without_char_lacks(a, ',', c);
    let d = without_currency_marker(b);
    lemma_without_currency_marker_lacks(b, c);
    let e = without_char(d, '"');
    lemma_without_char_lacks(d, '"', c);
    lemma_without_char_lacks(e, ' ', c);
    let g0 = cleaned(text);
    let g1 = strip_leading(g0, '+');
    lemma_strip_leading_lacks(g0, '+', c);
    let g2 = strip_leading(g1, '-');
    lemma_strip_leading_lacks(g1, '-', c);
    let g3 = strip_leading(g2, '\u{2014}');
    lemma_strip_leading_lacks(g2, '\u{2014}', c);
    let g4 = strip_leading(g3, '\u{2212}');
    lemma_strip_leading_lacks(g3, '\u{2212}', c);
    lemma_strip_leading_lacks(g4, '\u{2013}', c);
    let u = without_sign_glyphs(g0);
    lemma_first_index_of(u, c, u.len() as int);
}

/// Magnitude text without a suffix letter is read as decimal text is, cut to a
/// whole number: it gives the decimal's whole units, rounded towards zero, and
/// so `-404` for "no data" and `-500` for what is no number. This holds of all
/// text whose decimal lies within the range of a decimal, not at its ends.
pub proof fn lemma_magnitude_without_suffix(text: Seq<char>)
    requires
        lacks(text, 'T'),
        lacks(text, 'B'),
        lacks(text, 'M'),
        lacks(text, 'K'),
        -i64::MAX < micros_of_text(text) < i64::MAX,
    ensures
        magnitude_of_text(text) == truncated_units(micros_of_text(text)),
{
    let c = cleaned(text);
    let u = without_sign_glyphs(c);
    lemma_cleaning_lacks(text, 'T');
    lemma_cleaning_lacks(text, 'B');
    lemma_cleaning_lacks(text, 'M');
    lemma_cleaning_lacks(text, 'K');
    assert(magnitude_suffix(u) is None);
    assert(magnitude_numeral(u) == u);
    if !is_blank_or_dash(c) && is_numeral(u) {
        let d = numeral_digits(u);
        if is_infinity_word(d) {
            let g = glyph_sign(c);
            let n = numeral_sign(u);
            assert(g * (n * (i64::MAX as int)) == i64::MAX || g * (n * (i64::MAX as int))
                == -i64::MAX) by (nonlinear_arith)
                requires
                    g == 1 || g == -1,
                    n == 1 || n == -1,
            ;
            assert(false);
        }
        let whole = integer_digits(mantissa(d));
        let fraction = fraction_digits(mantissa(d));
        let e = exponent_of(d);
        lemma_six_more_places(whole, fraction, e);
        let fine = unsigned_scaled(d, DECIMAL_SCALE as nat) as int;
        let coarse = unsigned_scaled(d, 0) as int;
        assert(fine / 1_000_000 == coarse);
        let g = glyph_sign(c);
        let n = numeral_sign(u);
        let micros = micros_of_text(text);
        assert(micros == g * (n * saturated(fine as nat)));
        assert(g == 1 || g == -1);
        assert(n == 1 || n == -1);
        assert(saturated(fine as nat) == fine) by {
            if fine >= i64::MAX {
                assert(saturated(fine as nat) == i64::MAX);
                assert(g * (n * (i64::MAX as int)) == i64::MAX || g * (n * (i64::MAX as int))
                    == -i64::MAX) by (nonlinear_arith)
                    requires
                        g == 1 || g == -1,
                        n == 1 || n == -1,
                ;
            }
        }
        assert(coarse <= fine);
        assert(saturated(coarse as nat) == coarse);
        assert(magnitude_of_text(text) == g * (n * coarse));
        assert(g * (n * fine) == fine && g * (n * coarse) == coarse || g * (n * fine) == -fine && g
            * (n * coarse) == -coarse) by (nonlinear_arith)
            requires
                g == 1 || g == -1,
                n == 1 || n == -1,
        ;
    }
}

} // verus!
