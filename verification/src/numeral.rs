//! Integers of any size, held as their canonical decimal notation.

use crate::decimal::{decimal, digit_char, digits};
use crate::integer::DecimalInteger;
use vstd::prelude::*;
use vstd::string::StrSliceExecFns;
use vstd::string::StringExecFns;

verus! {

/// The code of `-`.
const MINUS: u8 = 45;

/// The code of `0`.
const ZERO: u8 = 48;

/// The code of `9`.
const NINE: u8 = 57;

/// Whether `c` is one of the ten digits.
pub open spec fn is_digit(c: char) -> bool {
    '0' <= c <= '9'
}

/// The number that the digit `c` writes.
pub open spec fn digit_value(c: char) -> nat {
    (c as int - '0' as int) as nat
}

/// The number that `text` writes, read as digits, most significant first.
pub open spec fn digits_value(text: Seq<char>) -> nat
    decreases text.len(),
{
    if text.len() == 0 {
        0
    } else {
        10 * digits_value(text.drop_last()) + digit_value(text.last())
    }
}

/// Whether `text` writes a natural number canonically: one digit or more,
/// nothing but digits, and no leading zero before another digit.
pub open spec fn is_digits(text: Seq<char>) -> bool {
    &&& text.len() >= 1
    &&& forall|i: int| 0 <= i < text.len() ==> is_digit(#[trigger] text[i])
    &&& text.len() > 1 ==> text[0] != '0'
}

/// Whether `text` writes an integer canonically: canonical digits, after a
/// `-` where the number is negative; zero has no sign.
pub open spec fn is_numeral(text: Seq<char>) -> bool {
    if text.len() > 0 && text[0] == '-' {
        is_digits(text.skip(1)) && text.skip(1) != seq!['0']
    } else {
        is_digits(text)
    }
}

/// The integer that `text` writes.
pub open spec fn numeral_value(text: Seq<char>) -> int {
    if text.len() > 0 && text[0] == '-' {
        -(digits_value(text.skip(1)) as int)
    } else {
        digits_value(text) as int
    }
}

/// A digit's character and its value are inverse to each other.
pub proof fn lemma_digit_round_trip(d: nat, c: char)
    ensures
        d < 10 ==> is_digit(digit_char(d)) && digit_value(digit_char(d)) == d,
        is_digit(c) ==> digit_value(c) < 10 && digit_char(digit_value(c)) == c,
{
}

/// The digits of a natural number are canonical and write that number.
pub proof fn lemma_digits_canonical(n: nat)
    ensures
        is_digits(digits(n)),
        digits_value(digits(n)) == n,
        digits(n)[0] == '0' <==> n == 0,
    decreases n,
{
    lemma_digit_round_trip(n % 10, '0');
    if n < 10 {
        assert(digits(n).drop_last() =~= Seq::<char>::empty());
        reveal_with_fuel(digits_value, 2);
    } else {
        lemma_digits_canonical(n / 10);
        assert(digits(n).drop_last() =~= digits(n / 10));
        assert(digits(n)[0] == digits(n / 10)[0]);
    }
}

/// Canonical digits are the digits of the number that they write.
pub proof fn lemma_digits_of_value(text: Seq<char>)
    requires
        is_digits(text),
    ensures
        digits(digits_value(text)) == text,
    decreases text.len(),
{
    let front = text.drop_last();
    lemma_digit_round_trip(0, text.last());
    if text.len() == 1 {
        assert(front =~= Seq::<char>::empty());
        reveal_with_fuel(digits_value, 2);
        assert(digits(digits_value(text)) =~= text);
    } else {
        assert(front[0] == text[0]);
        assert(is_digits(front));
        lemma_digits_of_value(front);
        lemma_digits_canonical(digits_value(front));
        assert(digits_value(front) >= 1);
        let v = digits_value(text);
        assert(v / 10 == digits_value(front) && v % 10 == digit_value(text.last()));
        assert(digits(v) =~= text);
    }
}

/// The decimal notation of an integer is canonical and writes that integer.
pub proof fn lemma_decimal_canonical(n: int)
    ensures
        is_numeral(decimal(n)),
        numeral_value(decimal(n)) == n,
{
    if n < 0 {
        lemma_digits_canonical((-n) as nat);
        assert(decimal(n).skip(1) =~= digits((-n) as nat));
        lemma_digits_canonical(0);
    } else {
        lemma_digits_canonical(n as nat);
    }
}

/// A canonical numeral is the decimal notation of the integer it writes.
pub proof fn lemma_decimal_of_value(text: Seq<char>)
    requires
        is_numeral(text),
    ensures
        decimal(numeral_value(text)) == text,
{
    if text.len() > 0 && text[0] == '-' {
        let body = text.skip(1);
        lemma_digits_of_value(body);
        lemma_digits_canonical(digits_value(body));
        assert(digits_value(body) != 0);
        assert(decimal(numeral_value(text)) =~= text);
    } else {
        lemma_digits_of_value(text);
    }
}

/// Two integers with the same decimal notation are the same integer.
pub proof fn lemma_decimal_injective(a: int, b: int)
    requires
        decimal(a) == decimal(b),
    ensures
        a == b,
{
    lemma_decimal_canonical(a);
    lemma_decimal_canonical(b);
}

/// An integer of any size, kept as its canonical decimal notation.
#[derive(Debug, PartialEq, Eq, Hash)]
pub struct Numeral {
    text: String,
}

impl View for Numeral {
    type V = int;

    /// The integer that the numeral writes.
    closed spec fn view(&self) -> int {
        numeral_value(self.text@)
    }
}

impl Numeral {
    #[verifier::type_invariant]
    spec fn well_formed(self) -> bool {
        is_numeral(self.text@)
    }

    /// Reads an integer from its decimal notation. Only the canonical
    /// notation is taken: digits with no leading zero, after a `-` for a
    /// negative number, and nothing else.
    pub fn parse(text: &str) -> (r: Option<Numeral>)
        ensures
            r is Some <==> is_numeral(text@),
            r is Some ==> r.unwrap()@ == numeral_value(text@),
    {
        broadcast use vstd::string::is_ascii_spec_bytes;

        if !text.is_ascii() {
            assert(!is_numeral(text@)) by {
                if is_numeral(text@) {
                    assert forall|i: int| 0 <= i < text@.len() implies '\0' <= #[trigger] text@[i]
                        <= '\u{7f}' by {
                        if i > 0 && text@[0] == '-' {
                            assert(text@[i] == text@.skip(1)[i - 1]);
                        }
                    }
                }
            }
            return None;
        }
        let len: usize = text.as_bytes().len();
        let start: usize = if len > 0 && text.get_ascii(0) == MINUS {
            1
        } else {
            0
        };
        let ghost body = text@.skip(start as int);
        if len == start {
            return None;
        }
        if text.get_ascii(start) == ZERO && (start == 1 || len > 1) {
            assert(body[0] == '0');
            assert(start == 1 && len == 2 ==> body =~= seq!['0']);
            return None;
        }
        let mut i: usize = start;
        while i < len
            invariant
                start <= i <= len,
                len == text@.len(),
                text.is_ascii(),
                body == text@.skip(start as int),
                start == 1 <==> text@[0] == '-',
                forall|j: int| 0 <= j < i - start ==> is_digit(#[trigger] body[j]),
            decreases len - i,
        {
            let b: u8 = text.get_ascii(i);
            if b < ZERO || b > NINE {
                assert(!is_digit(body[i - start]));
                return None;
            }
            i += 1;
        }
        assert(start == 0 ==> body =~= text@);
        Some(Numeral { text: String::from_str(text) })
    }
}

impl Clone for Numeral {
    fn clone(&self) -> (r: Self)
        ensures
            r@ == self@,
    {
        proof {
            use_type_invariant(self);
        }
        Numeral { text: self.text.clone() }
    }
}

impl DecimalInteger for Numeral {
    open spec fn as_int(&self) -> int {
        self@
    }

    fn to_decimal(&self) -> (text: String) {
        proof {
            use_type_invariant(self);
            lemma_decimal_of_value(self.text@);
        }
        self.text.clone()
    }
}

} // verus!
