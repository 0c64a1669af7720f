//! What holds of the suffix rule for every integer.

use crate::decimal::{decimal, digit_char, digits};
use crate::suffix::{ends_in, lemma_ends_with_by_index, nd, ordinal_suffix, rd, st, th};
use vstd::prelude::*;

verus! {

/// The absolute value of `n`.
pub open spec fn magnitude(n: int) -> nat {
    if n < 0 {
        (-n) as nat
    } else {
        n as nat
    }
}

/// The suffix rule stated on the number itself: the last two digits of its
/// magnitude decide, and the teens take `th`.
pub open spec fn suffix_of_value(n: int) -> Seq<char> {
    let m = magnitude(n);
    if m % 100 == 11 || m % 100 == 12 || m % 100 == 13 {
        th()
    } else if m % 10 == 1 {
        st()
    } else if m % 10 == 2 {
        nd()
    } else if m % 10 == 3 {
        rd()
    } else {
        th()
    }
}

/// The digits of `n` end with the digit of its units, and before that,
/// where `n` has more than one digit, stands the digit of its tens.
pub proof fn lemma_last_digits(n: nat)
    ensures
        digits(n).len() >= 1,
        digits(n).last() == digit_char(n % 10),
        n < 10 <==> digits(n).len() == 1,
        n >= 10 ==> digits(n)[digits(n).len() - 2] == digit_char((n / 10) % 10),
    decreases n,
{
    if n >= 10 {
        lemma_last_digits(n / 10);
    }
}

/// Whether the decimal notation of `n` ends in the digit `d` outside a
/// teen, read off the magnitude of `n`.
pub proof fn lemma_ends_in_by_value(n: int, d: nat)
    requires
        d < 10,
    ensures
        ends_in(decimal(n), digit_char(d)) <==> magnitude(n) % 10 == d && magnitude(n) % 100 != 10
            + d,
{
    let m = magnitude(n);
    let text = decimal(n);
    lemma_last_digits(m);
    lemma_ends_with_by_index(text, digit_char(d));
    assert(text.len() >= 1);
    assert(text[text.len() - 1] == digits(m).last());
    if m >= 10 {
        assert(text[text.len() - 2] == digit_char((m / 10) % 10));
        assert(m % 100 == 10 * ((m / 10) % 10) + m % 10);
    } else if n < 0 {
        assert(text[text.len() - 2] == '-');
    }
}

/// The suffix read off the decimal notation is the one that the last two
/// digits of the magnitude call for.
pub proof fn lemma_suffix_by_value(n: int)
    ensures
        ordinal_suffix(decimal(n)) == suffix_of_value(n),
{
    lemma_ends_in_by_value(n, 1);
    lemma_ends_in_by_value(n, 2);
    lemma_ends_in_by_value(n, 3);
}

/// The sign does not matter: a number and its negation take the same suffix.
pub proof fn lemma_sign_ignored(n: int)
    ensures
        ordinal_suffix(decimal(-n)) == ordinal_suffix(decimal(n)),
{
    lemma_suffix_by_value(n);
    lemma_suffix_by_value(-n);
}

/// Whatever the text, the suffix is one of `st`, `nd`, `rd` and `th`, and
/// these four differ from one another.
pub proof fn lemma_four_suffixes(text: Seq<char>)
    ensures
        ordinal_suffix(text) == st() || ordinal_suffix(text) == nd() || ordinal_suffix(text)
            == rd() || ordinal_suffix(text) == th(),
        st() != nd() && st() != rd() && st() != th() && nd() != rd() && nd() != th() && rd()
            != th(),
{
    assert(st()[0] == 's' && nd()[0] == 'n' && rd()[0] == 'r' && th()[0] == 't');
    assert(st()[1] == 't' && th()[1] == 'h');
}

} // verus!
