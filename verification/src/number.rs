//! The two literal grammars of a mesh file: real numbers, which are
//! recognised and handed on as text, and decimal indices, which are
//! evaluated.

use vstd::prelude::*;

use crate::text::to_chars;

verus! {

/// Whether `c` is one of the ten ASCII digits.
pub open spec fn is_digit(c: char) -> bool {
    0x30 <= c as u32 <= 0x39
}

/// The value of the ASCII digit `c`.
pub open spec fn digit_value(c: char) -> nat
    recommends
        is_digit(c),
{
    (c as u32 - 0x30) as nat
}

/// Whether `c` is a plus or a minus sign.
pub open spec fn is_sign(c: char) -> bool {
    c == '+' || c == '-'
}

/// The first position at or after `from` that holds no digit, or the length
/// of `s` if there is none.
pub open spec fn digits_end(s: Seq<char>, from: int) -> int
    decreases s.len() - from,
{
    if 0 <= from < s.len() && is_digit(s[from]) {
        digits_end(s, from + 1)
    } else {
        from
    }
}

/// Whether `c` is the lower-case ASCII letter `letter` or its upper-case
/// form.
pub open spec fn is_letter(c: char, letter: char) -> bool {
    c == letter || c as u32 + 0x20 == letter as u32
}

/// Whether `s` spells `name`, a word of lower-case ASCII letters, in any mix
/// of upper and lower case.
pub open spec fn spells(s: Seq<char>, name: Seq<char>) -> bool {
    &&& s.len() == name.len()
    &&& forall|i: int| 0 <= i < s.len() ==> is_letter(s[i], #[trigger] name[i])
}

/// Whether `s` is one of the three names `inf`, `infinity` and `nan`, in any
/// mix of upper and lower case.
pub open spec fn is_special_name(s: Seq<char>) -> bool {
    ||| spells(s, seq!['i', 'n', 'f'])
    ||| spells(s, seq!['i', 'n', 'f', 'i', 'n', 'i', 't', 'y'])
    ||| spells(s, seq!['n', 'a', 'n'])
}

/// Whether `s` from `from` on is empty or an exponent: the letter `e` in
/// either case, an optional sign, and one digit or more.
pub open spec fn is_exponent_or_empty(s: Seq<char>, from: int) -> bool {
    ||| from == s.len()
    ||| {
        let digits = if from + 1 < s.len() && is_sign(s[from + 1]) {
            from + 2
        } else {
            from + 1
        };
        &&& 0 <= from < s.len()
        &&& is_letter(s[from], 'e')
        &&& digits < s.len()
        &&& digits_end(s, digits) == s.len()
    }
}

/// Whether `s` is an unsigned decimal number: digits with an optional point
/// among them, before it or after it, at least one digit in all, and an
/// optional exponent.
pub open spec fn is_decimal(s: Seq<char>) -> bool {
    let whole_end = digits_end(s, 0);
    let has_point = whole_end < s.len() && s[whole_end] == '.';
    let fraction_end = if has_point {
        digits_end(s, whole_end + 1)
    } else {
        whole_end
    };
    let digits = if has_point {
        fraction_end - 1
    } else {
        fraction_end
    };
    digits > 0 && is_exponent_or_empty(s, fraction_end)
}

/// What is left of `s` once a leading sign, if there is one, is taken off.
pub open spec fn unsigned_part(s: Seq<char>) -> Seq<char> {
    if s.len() > 0 && is_sign(s[0]) {
        s.skip(1)
    } else {
        s
    }
}

/// Whether `s` is a literal of a real number: an optional sign, then a
/// decimal number or one of the names `inf`, `infinity` and `nan`. This is
/// the grammar by which the standard library reads a floating-point number
/// from text.
pub open spec fn is_real_literal(s: Seq<char>) -> bool {
    let body = unsigned_part(s);
    is_decimal(body) || is_special_name(body)
}

fn is_digit_char(c: char) -> (r: bool)
    ensures
        r == is_digit(c),
{
    let n: u32 = c as u32;
    0x30 <= n && n <= 0x39
}

fn is_sign_char(c: char) -> (r: bool)
    ensures
        r == is_sign(c),
{
    c == '+' || c == '-'
}

fn is_letter_char(c: char, letter: char) -> (r: bool)
    ensures
        r == is_letter(c, letter),
{
    let n: u32 = c as u32;
    let l: u32 = letter as u32;
    c == letter || n + 0x20 == l
}

/// The end of the run of digits of `chars` that starts at `from`.
fn scan_digits(chars: &Vec<char>, from: usize) -> (end: usize)
    requires
        from <= chars.len(),
    ensures
        end == digits_end(chars@, from as int),
        from <= end <= chars.len(),
{
    let mut i: usize = from;
    while i < chars.len() && is_digit_char(chars[i])
        invariant
            from <= i <= chars.len(),
            digits_end(chars@, from as int) == digits_end(chars@, i as int),
        decreases chars.len() - i,
    {
        i += 1;
    }
    i
}

/// Whether `chars` from `from` on spells `name`.
fn spells_from(chars: &Vec<char>, from: usize, name: &Vec<char>) -> (r: bool)
    requires
        from <= chars.len(),
    ensures
        r == spells(chars@.skip(from as int), name@),
{
    if chars.len() - from != name.len() {
        return false;
    }
    let mut i: usize = 0;
    while i < name.len()
        invariant
            from <= chars.len(),
            chars.len() - from == name.len(),
            i <= name.len(),
            forall|k: int| 0 <= k < i ==> is_letter(chars@.skip(from as int)[k], #[trigger] name@[k]),
        decreases name.len() - i,
    {
        if !is_letter_char(chars[from + i], name[i]) {
            assert(!is_letter(chars@.skip(from as int)[i as int], name@[i as int]));
            return false;
        }
        i += 1;
    }
    true
}

/// Whether the token is a literal of a real number.
pub fn is_real(token: &str) -> (r: bool)
    ensures
        r == is_real_literal(token@),
{
    let chars = to_chars(token);
    let n = chars.len();
    let start: usize = if n > 0 && is_sign_char(chars[0]) {
        1
    } else {
        0
    };
    let ghost body = unsigned_part(token@);
    assert(body == chars@.skip(start as int));
    if is_decimal_from(&chars, start) {
        return true;
    }
    let inf = vec!['i', 'n', 'f'];
    let infinity = vec!['i', 'n', 'f', 'i', 'n', 'i', 't', 'y'];
    let nan = vec!['n', 'a', 'n'];
    assert(inf@ =~= seq!['i', 'n', 'f']);
    assert(infinity@ =~= seq!['i', 'n', 'f', 'i', 'n', 'i', 't', 'y']);
    assert(nan@ =~= seq!['n', 'a', 'n']);
    spells_from(&chars, start, &inf) || spells_from(&chars, start, &infinity) || spells_from(
        &chars,
        start,
        &nan,
    )
}

/// `digits_end` of a suffix is `digits_end` of the whole, moved.
proof fn lemma_digits_end_skip(s: Seq<char>, start: int, from: int)
    requires
        0 <= start <= s.len(),
        0 <= from <= s.len() - start,
    ensures
        digits_end(s.skip(start), from) == digits_end(s, start + from) - start,
    decreases s.len() - start - from,
{
    let t = s.skip(start);
    if from < t.len() && is_digit(t[from]) {
        lemma_digits_end_skip(s, start, from + 1);
    }
}

/// Whether `chars` from `start` on is an unsigned decimal number.
fn is_decimal_from(chars: &Vec<char>, start: usize) -> (r: bool)
    requires
        start <= chars.len(),
    ensures
        r == is_decimal(chars@.skip(start as int)),
{
    let n = chars.len();
    let whole_end = scan_digits(chars, start);
    proof {
        lemma_digits_end_skip(chars@, start as int, 0);
    }
    let has_point = whole_end < n && chars[whole_end] == '.';
    let fraction_end = if has_point {
        proof {
            lemma_digits_end_skip(chars@, start as int, whole_end - start + 1);
        }
        scan_digits(chars, whole_end + 1)
    } else {
        whole_end
    };
    let digits = if has_point {
        fraction_end - start - 1
    } else {
        fraction_end - start
    };
    if digits == 0 {
        return false;
    }
    if fraction_end == n {
        return true;
    }
    if !is_letter_char(chars[fraction_end], 'e') {
        return false;
    }
    let exponent = if fraction_end + 1 < n && is_sign_char(chars[fraction_end + 1]) {
        fraction_end + 2
    } else {
        fraction_end + 1
    };
    if exponent >= n {
        return false;
    }
    proof {
        lemma_digits_end_skip(chars@, start as int, exponent - start);
    }
    scan_digits(chars, exponent) == n
}

/// The number that the decimal digits of `s` write.
pub open spec fn decimal_value(s: Seq<char>) -> nat
    decreases s.len(),
{
    if s.len() == 0 {
        0
    } else {
        10 * decimal_value(s.drop_last()) + digit_value(s.last())
    }
}

/// Whether every character of `s` is a digit.
pub open spec fn all_digits(s: Seq<char>) -> bool {
    forall|i: int| 0 <= i < s.len() ==> is_digit(#[trigger] s[i])
}

/// The number that `s` writes as an index literal: an optional plus sign and
/// one decimal digit or more. `None` where `s` is no such literal.
pub open spec fn index_literal(s: Seq<char>) -> Option<nat> {
    let digits = if s.len() > 0 && s[0] == '+' {
        s.skip(1)
    } else {
        s
    };
    if digits.len() > 0 && all_digits(digits) {
        Some(decimal_value(digits))
    } else {
        None
    }
}

/// The index that `s` writes, where it is an index literal whose number a
/// `usize` can hold.
pub open spec fn index_of_literal(s: Seq<char>) -> Option<usize> {
    match index_literal(s) {
        Some(v) => if v <= usize::MAX {
            Some(v as usize)
        } else {
            None
        },
        None => None,
    }
}

/// A longer run of digits writes a number that is no smaller.
proof fn lemma_decimal_value_grows(s: Seq<char>, k: int)
    requires
        0 <= k <= s.len(),
    ensures
        decimal_value(s.take(k)) <= decimal_value(s),
    decreases s.len() - k,
{
    if k < s.len() {
        lemma_decimal_value_grows(s, k + 1);
        assert(s.take(k + 1).drop_last() =~= s.take(k));
    } else {
        assert(s.take(k) =~= s);
    }
}

/// Reads an index literal. `None` where the token is none, or writes a
/// number that a `usize` cannot hold.
pub fn parse_index(token: &str) -> (r: Option<usize>)
    ensures
        r == index_of_literal(token@),
{
    let chars = to_chars(token);
    let n = chars.len();
    let start: usize = if n > 0 && chars[0] == '+' {
        1
    } else {
        0
    };
    let ghost digits = chars@.skip(start as int);
    assert(chars@.skip(0) =~= chars@);
    if start == n {
        return None;
    }
    let mut value: usize = 0;
    let mut fits = true;
    let mut i: usize = start;
    while i < n
        invariant
            start <= i <= n,
            n == chars.len(),
            chars@ == token@,
            start == (if n > 0 && chars@[0] == '+' { 1int } else { 0int }),
            digits == chars@.skip(start as int),
            forall|k: int| 0 <= k < i - start ==> is_digit(#[trigger] digits[k]),
            fits ==> value == decimal_value(digits.take(i - start)),
            !fits ==> decimal_value(digits) > usize::MAX,
        decreases n - i,
    {
        let c = chars[i];
        if !is_digit_char(c) {
            assert(!is_digit(digits[i - start]));
            return None;
        }
        if fits {
            let d: usize = (c as u32 - 0x30) as usize;
            proof {
                assert(digits.take(i - start + 1).drop_last() =~= digits.take(i - start));
                assert(digits.take(i - start + 1).last() == c);
                lemma_decimal_value_grows(digits, i - start + 1);
            }
            match value.checked_mul(10) {
                Some(scaled) => match scaled.checked_add(d) {
                    Some(next) => {
                        value = next;
                    },
                    None => {
                        fits = false;
                    },
                },
                None => {
                    fits = false;
                },
            }
        }
        i += 1;
    }
    assert(digits.take(digits.len() as int) =~= digits);
    if fits {
        Some(value)
    } else {
        None
    }
}

/// The character of the decimal digit `d`.
pub open spec fn digit_char(d: int) -> char
    recommends
        0 <= d <= 9,
{
    (0x30 + d) as char
}

/// The decimal digits of `n`, without leading zeros.
pub open spec fn decimal(n: nat) -> Seq<char>
    decreases n,
{
    if n < 10 {
        seq![digit_char(n as int)]
    } else {
        decimal(n / 10) + seq![digit_char((n % 10) as int)]
    }
}

} // verus!
