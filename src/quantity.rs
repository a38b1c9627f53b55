//! Decoding of textual resource quantities such as `500m`, `2Gi` or `128974848`.
use vstd::prelude::*;

verus! {

/// A decoded quantity: the leading decimal number and the unit letters that follow it.
#[derive(Debug, Clone, PartialEq, Eq)]
pub struct ResourceQuantity {
    pub value: i64,
    pub unit: String,
}

/// The mathematical content of a quantity: its value and its unit.
pub type QuantityModel = (int, Seq<char>);

impl ResourceQuantity {
    pub open spec fn model(&self) -> QuantityModel {
        (self.value as int, self.unit@)
    }
}

/// The model of an optional quantity.
pub open spec fn opt_model(q: Option<ResourceQuantity>) -> Option<QuantityModel> {
    match q {
        Some(x) => Some(x.model()),
        None => None,
    }
}

/// The view of an optional string.
pub open spec fn opt_str(s: Option<String>) -> Option<Seq<char>> {
    match s {
        Some(x) => Some(x@),
        None => None,
    }
}

pub open spec fn is_digit(c: char) -> bool {
    '0' <= c && c <= '9'
}

pub open spec fn is_unit_letter(c: char) -> bool {
    ('a' <= c && c <= 'z') || ('A' <= c && c <= 'Z')
}

pub open spec fn all_digits(s: Seq<char>) -> bool {
    forall|i: int| 0 <= i < s.len() ==> is_digit(#[trigger] s[i])
}

pub open spec fn all_letters(s: Seq<char>) -> bool {
    forall|i: int| 0 <= i < s.len() ==> is_unit_letter(#[trigger] s[i])
}

/// The length of the longest prefix of `s` made of decimal digits.
pub open spec fn digit_prefix_len(s: Seq<char>) -> nat
    decreases s.len(),
{
    if s.len() > 0 && is_digit(s[0]) {
        1 + digit_prefix_len(s.drop_first())
    } else {
        0
    }
}

/// The length of the longest prefix of `s` made of ASCII letters.
pub open spec fn letter_prefix_len(s: Seq<char>) -> nat
    decreases s.len(),
{
    if s.len() > 0 && is_unit_letter(s[0]) {
        1 + letter_prefix_len(s.drop_first())
    } else {
        0
    }
}

/// The number that a string of decimal digits denotes.
pub open spec fn digits_value(s: Seq<char>) -> int
    decreases s.len(),
{
    if s.len() == 0 {
        0
    } else {
        digits_value(s.drop_last()) * 10 + (s.last() as int - '0' as int)
    }
}

/// What a quantity string decodes to: the number formed by its leading digits and the run
/// of letters right after them. A string that does not start with a digit, or whose number
/// does not fit in an `i64`, decodes to nothing.
pub open spec fn quantity_of(s: Seq<char>) -> Option<QuantityModel> {
    let n = digit_prefix_len(s) as int;
    let rest = s.skip(n);
    if n == 0 || digits_value(s.take(n)) > i64::MAX {
        None
    } else {
        Some((digits_value(s.take(n)), rest.take(letter_prefix_len(rest) as int)))
    }
}

/// What an optional quantity string decodes to.
pub open spec fn parsed(s: Option<Seq<char>>) -> Option<QuantityModel> {
    match s {
        Some(x) => quantity_of(x),
        None => None,
    }
}

proof fn lemma_digits_value_nonneg(s: Seq<char>)
    requires
        all_digits(s),
    ensures
        digits_value(s) >= 0,
    decreases s.len(),
{
    if s.len() > 0 {
        lemma_digits_value_nonneg(s.drop_last());
    }
}

proof fn lemma_digits_value_grows(s: Seq<char>, i: int, j: int)
    requires
        all_digits(s),
        0 <= i <= j <= s.len(),
    ensures
        digits_value(s.take(i)) <= digits_value(s.take(j)),
    decreases j - i,
{
    if i < j {
        lemma_digits_value_grows(s, i, j - 1);
        assert(s.take(j).drop_last() =~= s.take(j - 1));
        lemma_digits_value_nonneg(s.take(j - 1));
    }
}

proof fn lemma_digit_prefix(s: Seq<char>)
    ensures
        digit_prefix_len(s) <= s.len(),
        all_digits(s.take(digit_prefix_len(s) as int)),
        digit_prefix_len(s) < s.len() ==> !is_digit(s[digit_prefix_len(s) as int]),
    decreases s.len(),
{
    if s.len() > 0 && is_digit(s[0]) {
        lemma_digit_prefix(s.drop_first());
        let n = digit_prefix_len(s) as int;
        assert forall|i: int| 0 <= i < n implies is_digit(#[trigger] s.take(n)[i]) by {
            if i > 0 {
                assert(s.take(n)[i] == s.drop_first().take(n - 1)[i - 1]);
            }
        }
    }
}

proof fn lemma_letter_prefix(s: Seq<char>)
    ensures
        letter_prefix_len(s) <= s.len(),
        letter_prefix_len(s) < s.len() ==> !is_unit_letter(s[letter_prefix_len(s) as int]),
        forall|i: int| 0 <= i < letter_prefix_len(s) ==> is_unit_letter(#[trigger] s[i]),
    decreases s.len(),
{
    if s.len() > 0 && is_unit_letter(s[0]) {
        lemma_letter_prefix(s.drop_first());
        assert forall|i: int| 0 <= i < letter_prefix_len(s) implies is_unit_letter(#[trigger] s[i]) by {
            if i > 0 {
                assert(s[i] == s.drop_first()[i - 1]);
            }
        }
    }
}

proof fn lemma_digit_prefix_of(d: Seq<char>, t: Seq<char>)
    requires
        all_digits(d),
        t.len() > 0 ==> !is_digit(t[0]),
    ensures
        digit_prefix_len(d + t) == d.len(),
    decreases d.len(),
{
    if d.len() == 0 {
        assert(d + t =~= t);
    } else {
        assert((d + t).drop_first() =~= d.drop_first() + t);
        lemma_digit_prefix_of(d.drop_first(), t);
    }
}

proof fn lemma_letter_prefix_all(l: Seq<char>)
    requires
        all_letters(l),
    ensures
        letter_prefix_len(l) == l.len(),
    decreases l.len(),
{
    if l.len() > 0 {
        lemma_letter_prefix_all(l.drop_first());
    }
}

/// A string made of a non-empty run of digits followed by a run of ASCII letters decodes to
/// exactly the number those digits denote and exactly those letters as its unit, as long as
/// the number fits in an `i64`.
pub proof fn lemma_parse_digits_then_letters(digits: Seq<char>, letters: Seq<char>)
    requires
        digits.len() > 0,
        all_digits(digits),
        all_letters(letters),
        digits_value(digits) <= i64::MAX,
    ensures
        quantity_of(digits + letters) == Some((digits_value(digits), letters)),
{
    let s = digits + letters;
    lemma_digit_prefix_of(digits, letters);
    assert(s.take(digits.len() as int) =~= digits);
    assert(s.skip(digits.len() as int) =~= letters);
    lemma_letter_prefix_all(letters);
    assert(letters.take(letters.len() as int) =~= letters);
}

fn char_is_digit(c: char) -> (r: bool)
    ensures
        r == is_digit(c),
{
    '0' <= c && c <= '9'
}

fn char_is_unit_letter(c: char) -> (r: bool)
    ensures
        r == is_unit_letter(c),
{
    ('a' <= c && c <= 'z') || ('A' <= c && c <= 'Z')
}

/// Decodes a quantity string into its number and unit; absent, empty or malformed input
/// (no leading digit, or a number beyond `i64`) gives `None`.
pub fn parse_resource(raw: Option<&str>) -> (r: Option<ResourceQuantity>)
    ensures
        opt_model(r) == match raw {
            Some(s) => quantity_of(s@),
            None => None,
        },
{
    let s = match raw {
        Some(s) => s,
        None => return None,
    };
    let len = s.unicode_len();
    let ghost v = s@;
    proof {
        lemma_digit_prefix(v);
    }
    let mut i: usize = 0;
    let mut value: i64 = 0;
    while i < len && char_is_digit(s.get_char(i))
        invariant
            raw == Some(s),
            len == v.len(),
            v == s@,
            i <= digit_prefix_len(v),
            all_digits(v.take(digit_prefix_len(v) as int)),
            digit_prefix_len(v) <= v.len(),
            digit_prefix_len(v) < v.len() ==> !is_digit(v[digit_prefix_len(v) as int]),
            value as int == digits_value(v.take(i as int)),
            value >= 0,
        decreases len - i,
    {
        let c = s.get_char(i);
        let d = (c as u32 - '0' as u32) as i64;
        let ghost n = digit_prefix_len(v) as int;
        assert(i < n) by {
            if i == n {
                assert(is_digit(v[i as int]));
            }
        }
        assert(v.take(i + 1).drop_last() =~= v.take(i as int));
        assert(v.take(n)[i as int] == c);
        assert(d == c as int - '0' as int);
        assert(0 <= d <= 9);
        let limit = (i64::MAX - d) / 10;
        if value > limit {
            proof {
                assert(value * 10 + d > i64::MAX) by (nonlinear_arith)
                    requires
                        value > limit,
                        limit == (i64::MAX - d) / 10,
                        0 <= d <= 9,
                ;
                assert(v.take(i + 1).last() == c);
                assert(digits_value(v.take(i + 1)) == value * 10 + d);
                lemma_digits_value_grows(v.take(n), i + 1, n);
                assert(v.take(n).take(i + 1) =~= v.take(i + 1));
                assert(v.take(n).take(n) =~= v.take(n));
                assert(digits_value(v.take(n)) > i64::MAX);
                assert(digit_prefix_len(v) == n);
            }
            return None;
        }
        assert(value * 10 + d <= i64::MAX) by (nonlinear_arith)
            requires
                value <= limit,
                limit == (i64::MAX - d) / 10,
                0 <= d <= 9,
                value >= 0,
        ;
        value = value * 10 + d;
        i = i + 1;
    }
    let n = i;
    assert(n == digit_prefix_len(v)) by {
        if n < digit_prefix_len(v) {
            assert(v.take(digit_prefix_len(v) as int)[n as int] == v[n as int]);
        }
    }
    if n == 0 {
        return None;
    }
    let ghost rest = v.skip(n as int);
    proof {
        lemma_letter_prefix(rest);
    }
    let mut j: usize = n;
    while j < len && char_is_unit_letter(s.get_char(j))
        invariant
            raw == Some(s),
            len == v.len(),
            v == s@,
            rest == v.skip(n as int),
            n <= j <= n + letter_prefix_len(rest),
            letter_prefix_len(rest) <= rest.len(),
            letter_prefix_len(rest) < rest.len() ==> !is_unit_letter(
                rest[letter_prefix_len(rest) as int],
            ),
        decreases len - j,
    {
        assert(j < n + letter_prefix_len(rest)) by {
            if j == n + letter_prefix_len(rest) {
                assert(rest[j - n] == v[j as int]);
            }
        }
        j = j + 1;
    }
    assert(j == n + letter_prefix_len(rest)) by {
        if j < n + letter_prefix_len(rest) {
            assert(rest[j - n] == v[j as int]);
        }
    }
    let unit = s.substring_char(n, j);
    assert(unit@ =~= rest.take(letter_prefix_len(rest) as int));
    Some(ResourceQuantity { value, unit: String::from_str(unit) })
}

} // verus!
