//! Arbitrary-precision integer amounts.
//!
//! Token amounts can exceed the 64-bit range, so an amount is held as its
//! decimal digits and compared digit by digit: no operation rounds, truncates
//! or goes through a machine integer unless it says so.
//!
//! A decimal text is an optional sign followed by digits. ASCII whitespace is
//! skipped wherever it stands, and an underscore may separate digits once the
//! first digit has been read.

use crate::error::{shape_fault, Error, Fault, ParseDecimalError};
use crate::json::{Json, JsonKind, JsonModel, Mode};
use crate::model::traits::{FromJson, ToJson};
use std::cmp::Ordering;
use vstd::prelude::*;

verus! {

/// ASCII whitespace: space, tab, line feed, vertical tab, form feed, carriage
/// return.
pub open spec fn is_blank(c: char) -> bool {
    c == ' ' || c == '\t' || c == '\n' || c == '\u{b}' || c == '\u{c}' || c == '\r'
}

/// A decimal digit.
pub open spec fn is_digit(c: char) -> bool {
    '0' <= c <= '9'
}

/// The number that a digit stands for.
pub open spec fn digit_of(c: char) -> nat {
    (c as nat - '0' as nat) as nat
}

/// The character that stands for a number below ten.
pub open spec fn digit_char(d: nat) -> char {
    ('0' as nat + d) as char
}

/// The text without its whitespace.
pub open spec fn significant(text: Seq<char>) -> Seq<char> {
    text.filter(|c: char| !is_blank(c))
}

/// Tells whether the significant text starts with a sign.
pub open spec fn signed(t: Seq<char>) -> bool {
    t.len() > 0 && (t[0] == '+' || t[0] == '-')
}

/// What is left of the significant text after the sign.
pub open spec fn unsigned_part(t: Seq<char>) -> Seq<char> {
    if signed(t) {
        t.skip(1)
    } else {
        t
    }
}

/// Tells whether `body` is a run of digits and separators that starts with a
/// digit.
pub open spec fn is_digit_run(body: Seq<char>) -> bool {
    &&& body.len() > 0
    &&& is_digit(body[0])
    &&& forall|i: int| 0 <= i < body.len() ==> is_digit(#[trigger] body[i]) || body[i] == '_'
}

/// The number that the digits of `body` write in base ten, separators
/// skipped.
pub open spec fn run_value(body: Seq<char>) -> nat
    decreases body.len(),
{
    if body.len() == 0 {
        0
    } else if is_digit(body.last()) {
        run_value(body.drop_last()) * 10 + digit_of(body.last())
    } else {
        run_value(body.drop_last())
    }
}

/// The integer that a text stands for, or why it stands for none.
pub open spec fn parsed(text: Seq<char>) -> Result<int, ParseDecimalError> {
    let t = significant(text);
    let body = unsigned_part(t);
    if body.len() == 0 {
        Err(ParseDecimalError::NoDigits)
    } else if !is_digit_run(body) {
        Err(ParseDecimalError::InvalidDigit)
    } else if t[0] == '-' {
        Ok(-(run_value(body) as int))
    } else {
        Ok(run_value(body) as int)
    }
}

/// The digits of a natural number in base ten, most significant first.
pub open spec fn digits_text(n: nat) -> Seq<char>
    decreases n,
{
    if n < 10 {
        seq![digit_char(n)]
    } else {
        digits_text(n / 10).push(digit_char(n % 10))
    }
}

/// The canonical text of an integer: a minus sign if it is negative, then its
/// digits without leading zeros.
pub open spec fn text_of(value: int) -> Seq<char> {
    if value < 0 {
        seq!['-'] + digits_text((-value) as nat)
    } else {
        digits_text(value as nat)
    }
}

/// The number that a sequence of digits writes, most significant first.
pub open spec fn magnitude(digits: Seq<u8>) -> nat
    decreases digits.len(),
{
    if digits.len() == 0 {
        0
    } else {
        magnitude(digits.drop_last()) * 10 + digits.last() as nat
    }
}

/// Digits below ten, without a leading zero.
pub open spec fn canonical(digits: Seq<u8>) -> bool {
    &&& forall|i: int| 0 <= i < digits.len() ==> #[trigger] digits[i] < 10
    &&& digits.len() > 0 ==> digits[0] != 0
}

/// An arbitrary-precision integer.
#[derive(Debug)]
pub struct Decimal {
    negative: bool,
    digits: Vec<u8>,
}

impl View for Decimal {
    type V = int;

    closed spec fn view(&self) -> int {
        if self.negative {
            -(magnitude(self.digits@) as int)
        } else {
            magnitude(self.digits@) as int
        }
    }
}

impl Decimal {
    /// The digits are canonical and zero carries no sign, so that two values
    /// are the same integer exactly when their fields are the same.
    #[verifier::type_invariant]
    pub closed spec fn well_formed(&self) -> bool {
        &&& canonical(self.digits@)
        &&& self.negative ==> self.digits@.len() > 0
    }
}

/// Copies the characters of `s` that are not whitespace.
fn strip_blanks(s: &str) -> (kept: Vec<char>)
    ensures
        kept@ == significant(s@),
{
    let ghost keep = |c: char| !is_blank(c);
    let mut kept: Vec<char> = Vec::new();
    proof {
        reveal(Seq::filter);
        assert(s@.take(0).filter(keep) =~= Seq::<char>::empty());
    }
    for c in it: s.chars()
        invariant
            it.seq() == s@,
            keep == |c: char| !is_blank(c),
            kept@ == s@.take(it.index() as int).filter(keep),
    {
        proof {
            let i = it.index() as int;
            assert(s@.take(i + 1) =~= s@.take(i).push(c));
            Seq::lemma_filter_push(s@.take(i), c, keep);
        }
        if !(c == ' ' || c == '\t' || c == '\n' || c == '\u{b}' || c == '\u{c}' || c == '\r') {
            kept.push(c);
        }
    }
    proof {
        assert(s@.take(s@.len() as int) =~= s@);
    }
    kept
}

/// The number that the digit `c` stands for.
fn digit_value(c: char) -> (d: u8)
    requires
        is_digit(c),
    ensures
        d as nat == digit_of(c),
        d < 10,
{
    let code: u32 = c as u32;
    (code - 48) as u8
}

impl Decimal {
    /// Reads a decimal text.
    ///
    /// The text is an optional `+` or `-` followed by at least one digit.
    /// ASCII whitespace is skipped everywhere, and underscores are skipped
    /// after the first digit. A text without digits is refused with
    /// `NoDigits`, any other character with `InvalidDigit`.
    pub fn from_str(s: &str) -> (r: Result<Decimal, Error>)
        ensures
            match parsed(s@) {
                Ok(value) => r matches Ok(d) && d@ == value,
                Err(source) => r matches Err(e) && e@ == (Fault::InvalidDecimal { source }),
            },
    {
        let text = strip_blanks(s);
        let mut from: usize = 0;
        let mut minus = false;
        if text.len() > 0 && (text[0] == '+' || text[0] == '-') {
            minus = text[0] == '-';
            from = 1;
        }
        let ghost body = unsigned_part(text@);
        if from >= text.len() {
            return Err(Error::InvalidDecimal { source: ParseDecimalError::NoDigits });
        }
        let mut digits: Vec<u8> = Vec::new();
        let mut k: usize = from;
        while k < text.len()
            invariant
                from <= k <= text.len(),
                text@ == significant(s@),
                body == unsigned_part(text@),
                body == text@.skip(from as int),
                canonical(digits@),
                magnitude(digits@) == run_value(body.take(k - from)),
                k > from ==> is_digit(body[0]),
                forall|i: int| 0 <= i < k - from ==> is_digit(#[trigger] body[i]) || body[i] == '_',
            decreases text.len() - k,
        {
            let c = text[k];
            proof {
                let j = k - from;
                assert(body[j] == c);
                assert(body.take(j + 1).drop_last() =~= body.take(j));
                assert(body.take(j + 1).last() == c);
            }
            if c >= '0' && c <= '9' {
                let d = digit_value(c);
                if digits.len() > 0 || d != 0 {
                    proof {
                        assert(digits@.push(d).drop_last() =~= digits@);
                    }
                    digits.push(d);
                }
            } else if !(c == '_' && k > from) {
                return Err(Error::InvalidDecimal { source: ParseDecimalError::InvalidDigit });
            }
            k = k + 1;
        }
        proof {
            assert(body.take(body.len() as int) =~= body);
        }
        let negative = minus && digits.len() > 0;
        Ok(Decimal { negative, digits })
    }
}

/// The characters that write a sequence of digits.
pub open spec fn digit_chars(digits: Seq<u8>) -> Seq<char> {
    Seq::new(digits.len(), |i: int| digit_char(digits[i] as nat))
}

/// A canonical sequence of digits that is not empty writes a positive number.
pub proof fn lemma_magnitude_positive(digits: Seq<u8>)
    requires
        canonical(digits),
        digits.len() > 0,
    ensures
        magnitude(digits) > 0,
    decreases digits.len(),
{
    if digits.len() > 1 {
        lemma_magnitude_positive(digits.drop_last());
    } else {
        assert(digits.drop_last().len() == 0);
        assert(magnitude(digits.drop_last()) == 0);
    }
}

/// The characters of a canonical sequence of digits are the digits of the
/// number that it writes.
pub proof fn lemma_digit_chars(digits: Seq<u8>)
    requires
        canonical(digits),
        digits.len() > 0,
    ensures
        digit_chars(digits) == digits_text(magnitude(digits)),
    decreases digits.len(),
{
    let front = digits.drop_last();
    let last = digits.last();
    let m = magnitude(digits);
    if digits.len() == 1 {
        assert(magnitude(front) == 0);
        assert(digit_chars(digits) =~= seq![digit_char(last as nat)]);
    } else {
        lemma_magnitude_positive(front);
        lemma_digit_chars(front);
        assert(m == magnitude(front) * 10 + last);
        assert(m / 10 == magnitude(front) && m % 10 == last as nat);
        assert(digit_chars(digits) =~= digit_chars(front).push(digit_char(last as nat)));
    }
}

/// The one-character text of a digit.
fn digit_str(d: u8) -> (text: &'static str)
    requires
        d < 10,
    ensures
        text@ == seq![digit_char(d as nat)],
{
    proof {
        reveal_strlit("0");
        reveal_strlit("1");
        reveal_strlit("2");
        reveal_strlit("3");
        reveal_strlit("4");
        reveal_strlit("5");
        reveal_strlit("6");
        reveal_strlit("7");
        reveal_strlit("8");
        reveal_strlit("9");
    }
    let text = match d {
        0 => "0",
        1 => "1",
        2 => "2",
        3 => "3",
        4 => "4",
        5 => "5",
        6 => "6",
        7 => "7",
        8 => "8",
        _ => "9",
    };
    assert(text@ =~= seq![digit_char(d as nat)]);
    text
}

impl Decimal {
    /// Writes the canonical text of the value: a minus sign if it is
    /// negative, then its digits without leading zeros.
    pub fn to_string(&self) -> (text: String)
        ensures
            text@ == text_of(self@),
    {
        proof {
            use_type_invariant(self);
            reveal_strlit("-");
            reveal_strlit("0");
        }
        let mut text = String::new();
        if self.digits.len() == 0 {
            text.append("0");
            assert(magnitude(self.digits@) == 0);
            assert(text@ =~= digits_text(0));
            return text;
        }
        if self.negative {
            text.append("-");
        }
        let ghost sign = text@;
        let mut i: usize = 0;
        while i < self.digits.len()
            invariant
                i <= self.digits.len(),
                canonical(self.digits@),
                text@ == sign + digit_chars(self.digits@.take(i as int)),
            decreases self.digits.len() - i,
        {
            let piece = digit_str(self.digits[i]);
            text.append(piece);
            proof {
                assert(self.digits@.take(i + 1) =~= self.digits@.take(i as int).push(
                    self.digits@[i as int],
                ));
                assert(text@ =~= sign + digit_chars(self.digits@.take(i + 1)));
            }
            i = i + 1;
        }
        proof {
            assert(self.digits@.take(self.digits@.len() as int) =~= self.digits@);
            lemma_digit_chars(self.digits@);
            lemma_magnitude_positive(self.digits@);
            assert(sign =~= if self.negative {
                seq!['-']
            } else {
                Seq::<char>::empty()
            });
            assert(text@ =~= text_of(self@));
        }
        text
    }
}

/// The digits of a number are digits, and they write that number.
pub proof fn lemma_digits_text(n: nat)
    ensures
        digits_text(n).len() > 0,
        forall|i: int| 0 <= i < digits_text(n).len() ==> is_digit(#[trigger] digits_text(n)[i]),
        run_value(digits_text(n)) == n,
    decreases n,
{
    let text = digits_text(n);
    if n < 10 {
        assert(text.drop_last() =~= Seq::<char>::empty());
        assert(run_value(text.drop_last()) == 0);
        assert(text.last() == digit_char(n));
    } else {
        lemma_digits_text(n / 10);
        assert(text.drop_last() =~= digits_text(n / 10));
        assert(text.last() == digit_char(n % 10));
    }
}

/// A text without whitespace is all significant.
pub proof fn lemma_significant_all(text: Seq<char>)
    requires
        forall|i: int| 0 <= i < text.len() ==> !is_blank(#[trigger] text[i]),
    ensures
        significant(text) == text,
    decreases text.len(),
{
    reveal(Seq::filter);
    if text.len() > 0 {
        lemma_significant_all(text.drop_last());
        assert(text.drop_last().push(text.last()) =~= text);
    }
}

/// Reading the canonical text of an integer gives that integer back.
pub proof fn lemma_text_round_trip(value: int)
    ensures
        parsed(text_of(value)) == Ok::<int, ParseDecimalError>(value),
{
    let n = if value < 0 {
        (-value) as nat
    } else {
        value as nat
    };
    let digits = digits_text(n);
    let text = text_of(value);
    lemma_digits_text(n);
    assert forall|i: int| 0 <= i < text.len() implies !is_blank(#[trigger] text[i]) by {
        if value < 0 && i > 0 {
            assert(text[i] == digits[i - 1]);
        } else if value >= 0 {
            assert(text[i] == digits[i]);
        }
    }
    lemma_significant_all(text);
    if value < 0 {
        assert(text.skip(1) =~= digits);
    } else {
        assert(is_digit(text[0]));
    }
}

/// Ten to the power `n`.
pub open spec fn pow10(n: nat) -> nat
    decreases n,
{
    if n == 0 {
        1
    } else {
        10 * pow10((n - 1) as nat)
    }
}

/// A higher power of ten is no smaller.
pub proof fn lemma_pow10_monotone(a: nat, b: nat)
    requires
        a <= b,
    ensures
        pow10(a) <= pow10(b),
        pow10(a) > 0,
    decreases b,
{
    if b > a {
        lemma_pow10_monotone(a, (b - 1) as nat);
    } else if a > 0 {
        lemma_pow10_monotone((a - 1) as nat, (b - 1) as nat);
    }
}

/// A number of `n` digits lies below ten to the `n`, and at or above ten to the
/// `n - 1` if its first digit is not zero.
pub proof fn lemma_magnitude_bounds(digits: Seq<u8>)
    requires
        forall|i: int| 0 <= i < digits.len() ==> #[trigger] digits[i] < 10,
    ensures
        magnitude(digits) < pow10(digits.len()),
        digits.len() > 0 && digits[0] != 0 ==> magnitude(digits) >= pow10(
            (digits.len() - 1) as nat,
        ),
    decreases digits.len(),
{
    if digits.len() > 0 {
        let front = digits.drop_last();
        lemma_magnitude_bounds(front);
        assert(digits.last() < 10);
        if digits.len() > 1 {
            assert(front[0] == digits[0]);
        }
    }
}

/// Of two canonical numbers, the one with fewer digits is the smaller.
pub proof fn lemma_shorter_is_smaller(a: Seq<u8>, b: Seq<u8>)
    requires
        canonical(a),
        canonical(b),
        a.len() < b.len(),
    ensures
        magnitude(a) < magnitude(b),
{
    lemma_magnitude_bounds(a);
    lemma_magnitude_bounds(b);
    lemma_pow10_monotone(a.len(), (b.len() - 1) as nat);
}

/// Where two numbers agree on their first `at` digits and `a` has the smaller
/// digit at `at`, every longer prefix of `a` writes the smaller number.
proof fn lemma_prefix_order(a: Seq<u8>, b: Seq<u8>, at: int, upto: int)
    requires
        a.len() == b.len(),
        0 <= at < upto <= a.len(),
        forall|i: int| 0 <= i < a.len() ==> #[trigger] a[i] < 10,
        forall|i: int| 0 <= i < b.len() ==> #[trigger] b[i] < 10,
        forall|i: int| 0 <= i < at ==> a[i] == b[i],
        a[at] < b[at],
    ensures
        magnitude(a.take(upto)) < magnitude(b.take(upto)),
    decreases upto,
{
    assert(a.take(upto).drop_last() =~= a.take(upto - 1));
    assert(b.take(upto).drop_last() =~= b.take(upto - 1));
    assert(a.take(upto).last() == a[upto - 1] && a[upto - 1] < 10);
    assert(b.take(upto).last() == b[upto - 1] && b[upto - 1] < 10);
    if upto == at + 1 {
        assert(a.take(at) =~= b.take(at));
    } else {
        lemma_prefix_order(a, b, at, upto - 1);
    }
}

/// Of two numbers with as many digits, the one with the smaller digit where
/// they first differ is the smaller.
pub proof fn lemma_first_difference(a: Seq<u8>, b: Seq<u8>, at: usize)
    requires
        a.len() == b.len(),
        at < a.len(),
        forall|i: int| 0 <= i < a.len() ==> #[trigger] a[i] < 10,
        forall|i: int| 0 <= i < b.len() ==> #[trigger] b[i] < 10,
        forall|i: int| 0 <= i < at ==> a[i] == b[i],
        a[at as int] < b[at as int],
    ensures
        magnitude(a) < magnitude(b),
{
    lemma_prefix_order(a, b, at as int, a.len() as int);
    assert(a.take(a.len() as int) =~= a);
    assert(b.take(b.len() as int) =~= b);
}

/// Orders two canonical sequences of digits by the numbers they write.
fn order_digits(a: &Vec<u8>, b: &Vec<u8>) -> (r: Ordering)
    requires
        canonical(a@),
        canonical(b@),
    ensures
        match r {
            Ordering::Less => magnitude(a@) < magnitude(b@),
            Ordering::Equal => a@ == b@,
            Ordering::Greater => magnitude(a@) > magnitude(b@),
        },
{
    if a.len() < b.len() {
        proof {
            lemma_shorter_is_smaller(a@, b@);
        }
        return Ordering::Less;
    }
    if a.len() > b.len() {
        proof {
            lemma_shorter_is_smaller(b@, a@);
        }
        return Ordering::Greater;
    }
    let mut i: usize = 0;
    while i < a.len()
        invariant
            i <= a.len(),
            a.len() == b.len(),
            canonical(a@),
            canonical(b@),
            forall|j: int| 0 <= j < i ==> a@[j] == b@[j],
        decreases a.len() - i,
    {
        if a[i] < b[i] {
            proof {
                lemma_first_difference(a@, b@, i);
            }
            return Ordering::Less;
        }
        if a[i] > b[i] {
            proof {
                lemma_first_difference(b@, a@, i);
            }
            return Ordering::Greater;
        }
        i = i + 1;
    }
    assert(a@ =~= b@);
    Ordering::Equal
}

impl Decimal {
    /// Orders two amounts as integers.
    pub fn compare(&self, other: &Decimal) -> (r: Ordering)
        ensures
            match r {
                Ordering::Less => self@ < other@,
                Ordering::Equal => self@ == other@,
                Ordering::Greater => self@ > other@,
            },
    {
        proof {
            use_type_invariant(self);
            use_type_invariant(other);
            if self.digits@.len() > 0 {
                lemma_magnitude_positive(self.digits@);
            }
            if other.digits@.len() > 0 {
                lemma_magnitude_positive(other.digits@);
            }
        }
        if self.negative && !other.negative {
            Ordering::Less
        } else if !self.negative && other.negative {
            Ordering::Greater
        } else if self.negative {
            order_digits(&other.digits, &self.digits)
        } else {
            order_digits(&self.digits, &other.digits)
        }
    }
}

impl Clone for Decimal {
    fn clone(&self) -> (copy: Self)
        ensures
            copy@ == self@,
    {
        proof {
            use_type_invariant(self);
        }
        Decimal { negative: self.negative, digits: self.digits.clone() }
    }
}

impl PartialEq for Decimal {
    fn eq(&self, other: &Self) -> (r: bool) {
        matches!(self.compare(other), Ordering::Equal)
    }
}

impl Eq for Decimal {

}

impl vstd::std_specs::cmp::PartialEqSpecImpl for Decimal {
    open spec fn obeys_eq_spec() -> bool {
        true
    }

    open spec fn eq_spec(&self, other: &Self) -> bool {
        self@ == other@
    }
}

impl PartialOrd for Decimal {
    fn partial_cmp(&self, other: &Self) -> (r: Option<Ordering>) {
        Some(self.compare(other))
    }
}

impl vstd::std_specs::cmp::PartialOrdSpecImpl for Decimal {
    open spec fn obeys_partial_cmp_spec() -> bool {
        true
    }

    open spec fn partial_cmp_spec(&self, other: &Self) -> Option<Ordering> {
        if self@ < other@ {
            Some(Ordering::Less)
        } else if self@ == other@ {
            Some(Ordering::Equal)
        } else {
            Some(Ordering::Greater)
        }
    }
}

/// A prefix of a sequence of digits writes no larger a number than the whole.
pub proof fn lemma_magnitude_prefix(digits: Seq<u8>, upto: int)
    requires
        0 <= upto <= digits.len(),
    ensures
        magnitude(digits.take(upto)) <= magnitude(digits),
    decreases digits.len(),
{
    if upto == digits.len() {
        assert(digits.take(upto) =~= digits);
    } else {
        lemma_magnitude_prefix(digits.drop_last(), upto);
        assert(digits.drop_last().take(upto) =~= digits.take(upto));
    }
}

/// The digits of `n`, most significant first, without leading zeros.
fn digits_of(n: u64) -> (digits: Vec<u8>)
    ensures
        canonical(digits@),
        magnitude(digits@) == n,
{
    let mut digits: Vec<u8> = Vec::new();
    let mut unit: u64 = 10_000_000_000_000_000_000;
    let ghost mut exponent: nat = 19;
    proof {
        reveal_with_fuel(pow10, 20);
        assert(pow10(19) == 10_000_000_000_000_000_000);
        assert(n as int / 100_000_000_000_000_000_000int == 0);
    }
    loop
        invariant_except_break
            magnitude(digits@) == n as int / (unit * 10),
        invariant
            unit == pow10(exponent),
            unit > 0,
            exponent <= 19,
            canonical(digits@),
        ensures
            canonical(digits@),
            magnitude(digits@) == n,
        decreases exponent,
    {
        let quotient: u64 = n / unit;
        let digit: u8 = (quotient % 10) as u8;
        proof {
            lemma_pow10_monotone(0, exponent);
            vstd::arithmetic::div_mod::lemma_div_denominator(n as int, unit as int, 10);
            assert(unit * 10 == (unit as int) * 10);
            assert(n as int / (unit * 10) == quotient / 10);
            assert(digits@.push(digit).drop_last() =~= digits@);
            if digits.len() > 0 {
                lemma_magnitude_positive(digits@);
            }
        }
        if digits.len() > 0 || digit != 0 {
            digits.push(digit);
            assert(digits@.last() == digit);
        } else {
            assert(magnitude(digits@) == 0);
        }
        if unit == 1 {
            assert(quotient == n / 1);
            break ;
        }
        proof {
            assert(exponent > 0);
            exponent = (exponent - 1) as nat;
            lemma_pow10_monotone(0, exponent);
        }
        unit = unit / 10;
    }
    digits
}

impl Decimal {
    /// The amount `n`.
    pub fn from_u64(n: u64) -> (d: Decimal)
        ensures
            d@ == n,
    {
        Decimal { negative: false, digits: digits_of(n) }
    }

    /// The amount `n`.
    pub fn from_i64(n: i64) -> (d: Decimal)
        ensures
            d@ == n,
    {
        if n >= 0 {
            Decimal { negative: false, digits: digits_of(n as u64) }
        } else {
            let size: u64 = if n == i64::MIN {
                9_223_372_036_854_775_808
            } else {
                (-n) as u64
            };
            let digits = digits_of(size);
            assert(digits@.len() > 0) by {
                if digits@.len() == 0 {
                    assert(magnitude(digits@) == 0);
                }
            }
            Decimal { negative: true, digits }
        }
    }

    /// The size of the amount, sign left out, if it fits 64 bits.
    fn size(&self) -> (r: Option<u64>)
        ensures
            match r {
                Some(n) => magnitude(self.digits@) == n,
                None => magnitude(self.digits@) > u64::MAX,
            },
    {
        proof {
            use_type_invariant(self);
        }
        let mut total: u64 = 0;
        let mut i: usize = 0;
        assert(self.digits@.take(0) =~= Seq::<u8>::empty());
        while i < self.digits.len()
            invariant
                i <= self.digits.len(),
                canonical(self.digits@),
                total == magnitude(self.digits@.take(i as int)),
            decreases self.digits.len() - i,
        {
            let digit: u64 = self.digits[i] as u64;
            proof {
                assert(self.digits@.take(i + 1).drop_last() =~= self.digits@.take(i as int));
                assert(self.digits@.take(i + 1).last() == self.digits@[i as int]);
                lemma_magnitude_prefix(self.digits@, i + 1);
            }
            if total > (u64::MAX - digit) / 10 {
                return None;
            }
            total = total * 10 + digit;
            i = i + 1;
        }
        assert(self.digits@.take(self.digits@.len() as int) =~= self.digits@);
        Some(total)
    }

    /// The amount as a `u64`, if it is one.
    pub fn to_u64(&self) -> (r: Option<u64>)
        ensures
            match r {
                Some(n) => self@ == n,
                None => self@ < 0 || self@ > u64::MAX,
            },
    {
        proof {
            use_type_invariant(self);
            if self.digits@.len() > 0 {
                lemma_magnitude_positive(self.digits@);
            }
        }
        if self.negative {
            None
        } else {
            self.size()
        }
    }

    /// The amount as an `i64`, if it is one.
    pub fn to_i64(&self) -> (r: Option<i64>)
        ensures
            match r {
                Some(n) => self@ == n,
                None => self@ < i64::MIN || self@ > i64::MAX,
            },
    {
        match self.size() {
            None => None,
            Some(size) => {
                if self.negative {
                    if size > 9_223_372_036_854_775_808 {
                        None
                    } else if size == 9_223_372_036_854_775_808 {
                        Some(i64::MIN)
                    } else {
                        Some(-(size as i64))
                    }
                } else if size > 9_223_372_036_854_775_807 {
                    None
                } else {
                    Some(size as i64)
                }
            },
        }
    }
}

/// How an amount is written in JSON.
#[derive(Clone, Copy, Debug, PartialEq, Eq, Structural)]
pub enum DecimalEncoding {
    /// As a string of decimal digits.
    Text,
    /// As a JSON number.
    Number,
}

/// What reading a text as an amount gives.
pub open spec fn decimal_read(text: Seq<char>) -> Result<int, Fault> {
    match parsed(text) {
        Ok(value) => Ok(value),
        Err(source) => Err(Fault::InvalidDecimal { source }),
    }
}

/// What reading a JSON value as an amount gives. A string and a number are
/// both read, by their text.
pub open spec fn decimal_value(value: JsonModel) -> Result<int, Fault> {
    match value {
        JsonModel::Text(text) => decimal_read(text),
        JsonModel::Number(literal) => decimal_read(literal),
        _ => Err(shape_fault(JsonKind::Number)),
    }
}

/// The JSON value that writes an amount in the given encoding.
pub open spec fn decimal_json(value: int, encoding: DecimalEncoding) -> JsonModel {
    match encoding {
        DecimalEncoding::Text => JsonModel::Text(text_of(value)),
        DecimalEncoding::Number => JsonModel::Number(text_of(value)),
    }
}

impl Decimal {
    /// Writes the amount as a JSON string or as a JSON number.
    pub fn encode_as(&self, encoding: DecimalEncoding) -> (json: Json)
        ensures
            json@ == decimal_json(self@, encoding),
    {
        match encoding {
            DecimalEncoding::Text => Json::Text(self.to_string()),
            DecimalEncoding::Number => Json::Number(self.to_string()),
        }
    }
}

impl ToJson for Decimal {
    open spec fn json_of(model: int) -> JsonModel {
        decimal_json(model, DecimalEncoding::Text)
    }

    /// Writes the amount as a JSON string, the default encoding.
    fn encode(&self) -> (json: Json) {
        self.encode_as(DecimalEncoding::Text)
    }
}

impl FromJson for Decimal {
    open spec fn decoded(value: JsonModel, mode: Mode) -> Result<int, Fault> {
        decimal_value(value)
    }

    open spec fn valid(model: int) -> bool {
        true
    }

    proof fn lemma_round_trip(model: int, mode: Mode) {
        lemma_decimal_round_trip(model, DecimalEncoding::Text);
    }

    /// Reads an amount from a JSON string or a JSON number.
    fn decode(json: &Json, mode: Mode) -> (r: Result<Decimal, Error>) {
        let r = match json {
            Json::Text(text) => Decimal::from_str(text.as_str()),
            Json::Number(literal) => Decimal::from_str(literal.as_str()),
            _ => Err(Error::shape(JsonKind::Number)),
        };
        assert(forall|amount: Decimal| Self::valid(amount@));
        r
    }
}

/// An amount that was written is read back, as text and as JSON in either
/// encoding.
pub proof fn lemma_decimal_round_trip(value: int, encoding: DecimalEncoding)
    ensures
        decimal_read(text_of(value)) == Ok::<int, Fault>(value),
        decimal_value(decimal_json(value, encoding)) == Ok::<int, Fault>(value),
{
    lemma_text_round_trip(value);
}

/// The number that a sequence of digits writes, least significant first.
pub open spec fn little(digits: Seq<u8>) -> nat
    decreases digits.len(),
{
    if digits.len() == 0 {
        0
    } else {
        little(digits.drop_last()) + digits.last() as nat * pow10((digits.len() - 1) as nat)
    }
}

/// The digits in the opposite order.
pub open spec fn turned(digits: Seq<u8>) -> Seq<u8> {
    Seq::new(digits.len(), |i: int| digits[digits.len() - 1 - i])
}

/// The number that the `count` least significant digits write, most
/// significant first.
pub open spec fn low(digits: Seq<u8>, count: int) -> nat {
    if count >= digits.len() {
        magnitude(digits)
    } else {
        magnitude(digits.skip(digits.len() - count))
    }
}

/// A digit put before a number adds itself times the power of ten of its
/// place.
pub proof fn lemma_magnitude_prepend(digit: u8, digits: Seq<u8>)
    ensures
        magnitude(seq![digit] + digits) == digit as nat * pow10(digits.len()) + magnitude(digits),
    decreases digits.len(),
{
    let whole = seq![digit] + digits;
    if digits.len() == 0 {
        assert(whole.drop_last() =~= Seq::<u8>::empty());
        assert(magnitude(whole.drop_last()) == 0);
        assert(whole.last() == digit);
        assert(pow10(0) == 1);
        assert(magnitude(digits) == 0);
    } else {
        lemma_magnitude_prepend(digit, digits.drop_last());
        assert(whole.drop_last() =~= seq![digit] + digits.drop_last());
        assert(whole.last() == digits.last());
        let unit = pow10((digits.len() - 1) as nat);
        assert(pow10(digits.len()) == 10 * unit);
        assert(digit as nat * (10 * unit) == (digit as nat * unit) * 10) by (nonlinear_arith);
    }
}

/// Turning a number around turns the order of its digits, not the number.
pub proof fn lemma_turned(digits: Seq<u8>)
    ensures
        magnitude(turned(digits)) == little(digits),
    decreases digits.len(),
{
    if digits.len() == 0 {
        assert(turned(digits) =~= Seq::<u8>::empty());
    } else {
        let front = digits.drop_last();
        lemma_turned(front);
        assert(turned(digits) =~= seq![digits.last()] + turned(front));
        lemma_magnitude_prepend(digits.last(), turned(front));
    }
}

/// A number of `n` digits, least significant first, lies below ten to the
/// `n`.
pub proof fn lemma_little_bound(digits: Seq<u8>)
    requires
        forall|i: int| 0 <= i < digits.len() ==> #[trigger] digits[i] < 10,
    ensures
        little(digits) < pow10(digits.len()),
    decreases digits.len(),
{
    if digits.len() > 0 {
        lemma_little_bound(digits.drop_last());
        let unit = pow10((digits.len() - 1) as nat);
        let top = digits.last() as nat;
        assert(top <= 9);
        assert(top * unit <= 9 * unit) by (nonlinear_arith)
            requires
                top <= 9,
        ;
    }
}

/// One more of the least significant digits adds that digit times the power
/// of ten of its place; past the most significant digit nothing is added.
pub proof fn lemma_low_step(digits: Seq<u8>, count: int)
    requires
        0 <= count,
    ensures
        count < digits.len() ==> low(digits, count + 1) == digits[digits.len() - 1 - count] as nat
            * pow10(count as nat) + low(digits, count),
        count >= digits.len() ==> low(digits, count + 1) == low(digits, count),
        low(digits, 0) == 0,
{
    assert(digits.skip(digits.len() as int) =~= Seq::<u8>::empty());
    if count < digits.len() {
        let at = digits.len() - 1 - count;
        assert(digits.skip(at) =~= seq![digits[at]] + digits.skip(at + 1));
        lemma_magnitude_prepend(digits[at], digits.skip(at + 1));
        if at == 0 {
            assert(digits.skip(0) =~= digits);
        }
    }
}

/// The digit of `digits` at the place `place`, where place 0 is the least
/// significant; zero past the most significant digit.
fn digit_at(digits: &Vec<u8>, place: usize) -> (digit: u8)
    requires
        forall|i: int| 0 <= i < digits@.len() ==> #[trigger] digits@[i] < 10,
    ensures
        digit < 10,
        place < digits@.len() ==> digit == digits@[digits@.len() - 1 - place],
        place >= digits@.len() ==> digit == 0,
{
    if place < digits.len() {
        digits[digits.len() - 1 - place]
    } else {
        0
    }
}

/// Turns digits that are least significant first into a canonical number.
fn canonical_of(digits: &Vec<u8>) -> (number: Vec<u8>)
    requires
        forall|i: int| 0 <= i < digits@.len() ==> #[trigger] digits@[i] < 10,
    ensures
        canonical(number@),
        magnitude(number@) == little(digits@),
{
    let mut top: usize = digits.len();
    assert(digits@.take(top as int) =~= digits@);
    while top > 0 && digits[top - 1] == 0
        invariant
            top <= digits.len(),
            little(digits@.take(top as int)) == little(digits@),
        decreases top,
    {
        proof {
            let kept = digits@.take(top as int);
            assert(kept.drop_last() =~= digits@.take(top - 1));
            assert(kept.last() == 0);
            assert(0 * pow10((kept.len() - 1) as nat) == 0) by (nonlinear_arith);
        }
        top = top - 1;
    }
    let ghost kept = digits@.take(top as int);
    let mut number: Vec<u8> = Vec::new();
    let mut left: usize = top;
    while left > 0
        invariant
            left <= top <= digits.len(),
            kept == digits@.take(top as int),
            number@.len() == top - left,
            forall|i: int| 0 <= i < number@.len() ==> number@[i] == turned(kept)[i],
        decreases left,
    {
        left = left - 1;
        number.push(digits[left]);
    }
    proof {
        assert(number@ =~= turned(kept));
        lemma_turned(kept);
    }
    number
}

/// Adds two numbers digit by digit.
fn plus(a: &Vec<u8>, b: &Vec<u8>) -> (sum: Vec<u8>)
    requires
        canonical(a@),
        canonical(b@),
    ensures
        canonical(sum@),
        magnitude(sum@) == magnitude(a@) + magnitude(b@),
{
    let mut digits: Vec<u8> = Vec::new();
    let mut carry: u8 = 0;
    let mut place: usize = 0;
    proof {
        lemma_low_step(a@, 0);
        lemma_low_step(b@, 0);
    }
    while place < a.len() || place < b.len()
        invariant
            canonical(a@),
            canonical(b@),
            carry <= 1,
            digits@.len() == place,
            forall|i: int| 0 <= i < digits@.len() ==> #[trigger] digits@[i] < 10,
            little(digits@) + carry as nat * pow10(place as nat) == low(a@, place as int) + low(
                b@,
                place as int,
            ),
        decreases (if a.len() > b.len() {
            a.len()
        } else {
            b.len()
        }) - place,
    {
        let x = digit_at(a, place);
        let y = digit_at(b, place);
        let total: u8 = x + y + carry;
        let digit: u8 = total % 10;
        let next: u8 = total / 10;
        proof {
            let unit = pow10(place as nat);
            lemma_low_step(a@, place as int);
            lemma_low_step(b@, place as int);
            assert(digits@.push(digit).drop_last() =~= digits@);
            assert(pow10((place + 1) as nat) == 10 * unit);
            assert(digit as nat * unit + next as nat * (10 * unit) == (x as nat + y as nat
                + carry as nat) * unit) by (nonlinear_arith)
                requires
                    digit as nat + 10 * next as nat == x as nat + y as nat + carry as nat,
            ;
            assert((x as nat + y as nat + carry as nat) * unit == x as nat * unit + y as nat * unit
                + carry as nat * unit) by (nonlinear_arith);
        }
        digits.push(digit);
        carry = next;
        place = place + 1;
    }
    proof {
        assert(digits@.push(carry).drop_last() =~= digits@);
    }
    digits.push(carry);
    canonical_of(&digits)
}

/// Takes the smaller of two numbers from the larger, digit by digit.
fn minus(a: &Vec<u8>, b: &Vec<u8>) -> (difference: Vec<u8>)
    requires
        canonical(a@),
        canonical(b@),
        magnitude(a@) >= magnitude(b@),
    ensures
        canonical(difference@),
        magnitude(difference@) == magnitude(a@) - magnitude(b@),
{
    let mut digits: Vec<u8> = Vec::new();
    let mut borrow: u8 = 0;
    let mut place: usize = 0;
    proof {
        lemma_low_step(a@, 0);
        lemma_low_step(b@, 0);
    }
    while place < a.len() || place < b.len()
        invariant
            canonical(a@),
            canonical(b@),
            borrow <= 1,
            digits@.len() == place,
            forall|i: int| 0 <= i < digits@.len() ==> #[trigger] digits@[i] < 10,
            little(digits@) + low(b@, place as int) == low(a@, place as int) + borrow as nat
                * pow10(place as nat),
        decreases (if a.len() > b.len() {
            a.len()
        } else {
            b.len()
        }) - place,
    {
        let x = digit_at(a, place);
        let y = digit_at(b, place);
        let total: u8 = x + 10 - y - borrow;
        let digit: u8 = total % 10;
        let next: u8 = 1 - total / 10;
        proof {
            let unit = pow10(place as nat);
            lemma_low_step(a@, place as int);
            lemma_low_step(b@, place as int);
            assert(digits@.push(digit).drop_last() =~= digits@);
            assert(pow10((place + 1) as nat) == 10 * unit);
            assert(borrow as nat * unit + digit as nat * unit + y as nat * unit == x as nat * unit
                + next as nat * (10 * unit)) by (nonlinear_arith)
                requires
                    borrow as nat + digit as nat + y as nat == x as nat + 10 * next as nat,
            ;
        }
        digits.push(digit);
        borrow = next;
        place = place + 1;
    }
    proof {
        lemma_little_bound(digits@);
        assert(borrow as nat * pow10(place as nat) == if borrow == 1 {
            pow10(place as nat)
        } else {
            0
        }) by (nonlinear_arith)
            requires
                borrow <= 1,
        ;
    }
    canonical_of(&digits)
}

/// Ten times a number.
fn times_ten(a: &Vec<u8>) -> (product: Vec<u8>)
    requires
        canonical(a@),
    ensures
        canonical(product@),
        magnitude(product@) == magnitude(a@) * 10,
{
    let mut product = a.clone();
    if product.len() > 0 {
        proof {
            assert(product@.push(0).drop_last() =~= a@);
        }
        product.push(0);
    } else {
        assert(magnitude(a@) == 0);
    }
    product
}

/// A number times a digit.
fn times_digit(a: &Vec<u8>, digit: u8) -> (product: Vec<u8>)
    requires
        canonical(a@),
        digit < 10,
    ensures
        canonical(product@),
        magnitude(product@) == magnitude(a@) * digit,
{
    let mut product: Vec<u8> = Vec::new();
    let mut count: u8 = 0;
    assert(magnitude(product@) == 0);
    assert(magnitude(a@) * 0 == 0) by (nonlinear_arith);
    while count < digit
        invariant
            count <= digit < 10,
            canonical(a@),
            canonical(product@),
            magnitude(product@) == magnitude(a@) * count,
        decreases digit - count,
    {
        proof {
            let size = magnitude(a@);
            assert(size * count + size == size * (count + 1)) by (nonlinear_arith);
        }
        product = plus(&product, a);
        count = count + 1;
    }
    product
}

/// Multiplies two numbers, digit by digit of the first.
fn times(a: &Vec<u8>, b: &Vec<u8>) -> (product: Vec<u8>)
    requires
        canonical(a@),
        canonical(b@),
    ensures
        canonical(product@),
        magnitude(product@) == magnitude(a@) * magnitude(b@),
{
    let mut product: Vec<u8> = Vec::new();
    let mut i: usize = 0;
    proof {
        assert(a@.take(0) =~= Seq::<u8>::empty());
        assert(magnitude(product@) == 0);
        assert(0 * magnitude(b@) == 0) by (nonlinear_arith);
    }
    while i < a.len()
        invariant
            i <= a.len(),
            canonical(a@),
            canonical(b@),
            canonical(product@),
            magnitude(product@) == magnitude(a@.take(i as int)) * magnitude(b@),
        decreases a.len() - i,
    {
        let digit = a[i];
        proof {
            let front = magnitude(a@.take(i as int));
            let size = magnitude(b@);
            assert(a@.take(i + 1).drop_last() =~= a@.take(i as int));
            assert(a@.take(i + 1).last() == digit);
            assert((front * 10 + digit) * size == (front * size) * 10 + size * digit)
                by (nonlinear_arith);
        }
        let shifted = times_ten(&product);
        let part = times_digit(b, digit);
        product = plus(&shifted, &part);
        i = i + 1;
    }
    proof {
        assert(a@.take(a@.len() as int) =~= a@);
    }
    product
}

impl Decimal {
    /// The amount zero.
    pub fn zero() -> (d: Decimal)
        ensures
            d@ == 0,
    {
        Decimal { negative: false, digits: Vec::new() }
    }

    /// Tells whether the amount is zero.
    pub fn is_zero(&self) -> (r: bool)
        ensures
            r == (self@ == 0),
    {
        proof {
            use_type_invariant(self);
            if self.digits@.len() > 0 {
                lemma_magnitude_positive(self.digits@);
            }
        }
        self.digits.len() == 0
    }

    /// Tells whether the amount is below zero.
    pub fn is_negative(&self) -> (r: bool)
        ensures
            r == (self@ < 0),
    {
        proof {
            use_type_invariant(self);
            if self.digits@.len() > 0 {
                lemma_magnitude_positive(self.digits@);
            }
        }
        self.negative
    }

    /// The amount with the opposite sign.
    pub fn neg(&self) -> (d: Decimal)
        ensures
            d@ == -self@,
    {
        proof {
            use_type_invariant(self);
        }
        Decimal { negative: !self.negative && self.digits.len() > 0, digits: self.digits.clone() }
    }

    /// The exact sum of two amounts.
    pub fn add(&self, other: &Decimal) -> (sum: Decimal)
        ensures
            sum@ == self@ + other@,
    {
        proof {
            use_type_invariant(self);
            use_type_invariant(other);
        }
        if self.negative == other.negative {
            let digits = plus(&self.digits, &other.digits);
            proof {
                if digits@.len() == 0 {
                    assert(magnitude(digits@) == 0);
                    if self.digits@.len() > 0 {
                        lemma_magnitude_positive(self.digits@);
                    }
                }
            }
            Decimal { negative: self.negative && digits.len() > 0, digits }
        } else {
            match order_digits(&self.digits, &other.digits) {
                Ordering::Equal => Decimal::zero(),
                Ordering::Greater => {
                    let digits = minus(&self.digits, &other.digits);
                    proof {
                        if digits@.len() == 0 {
                            assert(magnitude(digits@) == 0);
                        }
                    }
                    Decimal { negative: self.negative && digits.len() > 0, digits }
                },
                Ordering::Less => {
                    let digits = minus(&other.digits, &self.digits);
                    proof {
                        if digits@.len() == 0 {
                            assert(magnitude(digits@) == 0);
                        }
                    }
                    Decimal { negative: other.negative && digits.len() > 0, digits }
                },
            }
        }
    }

    /// The exact difference of two amounts.
    pub fn sub(&self, other: &Decimal) -> (difference: Decimal)
        ensures
            difference@ == self@ - other@,
    {
        self.add(&other.neg())
    }

    /// The exact product of two amounts.
    pub fn mul(&self, other: &Decimal) -> (product: Decimal)
        ensures
            product@ == self@ * other@,
    {
        proof {
            use_type_invariant(self);
            use_type_invariant(other);
        }
        let digits = times(&self.digits, &other.digits);
        proof {
            let a = magnitude(self.digits@) as int;
            let b = magnitude(other.digits@) as int;
            if digits@.len() == 0 {
                assert(magnitude(digits@) == 0);
            }
            assert((-a) * b == -(a * b) && a * (-b) == -(a * b) && (-a) * (-b) == a * b)
                by (nonlinear_arith);
        }
        Decimal { negative: self.negative != other.negative && digits.len() > 0, digits }
    }
}

} // verus!
