//! The rule that picks the English ordinal suffix from the way a number is
//! written in decimal notation.

use vstd::prelude::*;
use vstd::string::StrSliceExecFns;
use vstd::string::StringExecFns;

verus! {

/// The suffix `st`, as in `1st`.
pub open spec fn st() -> Seq<char> {
    seq!['s', 't']
}

/// The suffix `nd`, as in `2nd`.
pub open spec fn nd() -> Seq<char> {
    seq!['n', 'd']
}

/// The suffix `rd`, as in `3rd`.
pub open spec fn rd() -> Seq<char> {
    seq!['r', 'd']
}

/// The suffix `th`, as in `4th`.
pub open spec fn th() -> Seq<char> {
    seq!['t', 'h']
}

/// Whether `text` ends with the characters of `tail`.
pub open spec fn ends_with(text: Seq<char>, tail: Seq<char>) -> bool {
    tail.len() <= text.len() && text.subrange(text.len() - tail.len(), text.len() as int) == tail
}

/// Whether `text` ends in the digit `d` outside a teen: its last character
/// is `d`, and its last two are not `1` followed by `d`.
pub open spec fn ends_in(text: Seq<char>, d: char) -> bool {
    ends_with(text, seq![d]) && !ends_with(text, seq!['1', d])
}

/// The ordinal suffix that goes with a number written as `text`. Only the
/// last two characters are read: `11`, `12` and `13` take `th` like the
/// digits that have no suffix of their own.
pub open spec fn ordinal_suffix(text: Seq<char>) -> Seq<char> {
    if ends_in(text, '1') {
        st()
    } else if ends_in(text, '2') {
        nd()
    } else if ends_in(text, '3') {
        rd()
    } else {
        th()
    }
}

/// `ends_with` for the two tails that the rule reads, stated by index.
pub proof fn lemma_ends_with_by_index(text: Seq<char>, d: char)
    ensures
        ends_with(text, seq![d]) <==> text.len() >= 1 && text[text.len() - 1] == d,
        ends_with(text, seq!['1', d]) <==> text.len() >= 2 && text[text.len() - 2] == '1'
            && text[text.len() - 1] == d,
{
    let n = text.len() as int;
    if n >= 1 {
        let one = text.subrange(n - 1, n);
        assert(one.len() == 1 && one[0] == text[n - 1]);
        if text[n - 1] == d {
            assert(one =~= seq![d]);
        } else {
            assert(seq![d][0] == d);
        }
    }
    if n >= 2 {
        let two = text.subrange(n - 2, n);
        assert(two.len() == 2 && two[0] == text[n - 2] && two[1] == text[n - 1]);
        if text[n - 2] == '1' && text[n - 1] == d {
            assert(two =~= seq!['1', d]);
        } else {
            assert(seq!['1', d][0] == '1' && seq!['1', d][1] == d);
        }
    }
}

/// The ordinal suffix for a number from its decimal notation.
pub fn suffix_of_decimal(text: &str) -> (r: &'static str)
    ensures
        r@ == ordinal_suffix(text@),
{
    proof {
        reveal_strlit("st");
        reveal_strlit("nd");
        reveal_strlit("rd");
        reveal_strlit("th");
        lemma_ends_with_by_index(text@, '1');
        lemma_ends_with_by_index(text@, '2');
        lemma_ends_with_by_index(text@, '3');
        assert("st"@ =~= st());
        assert("nd"@ =~= nd());
        assert("rd"@ =~= rd());
        assert("th"@ =~= th());
    }
    let len: usize = text.unicode_len();
    if len == 0 {
        return "th";
    }
    let last = text.get_char(len - 1);
    let teen = len >= 2 && text.get_char(len - 2) == '1';
    if teen {
        "th"
    } else if last == '1' {
        "st"
    } else if last == '2' {
        "nd"
    } else if last == '3' {
        "rd"
    } else {
        "th"
    }
}

/// A number's decimal notation followed by its ordinal suffix.
pub fn format_decimal(text: &str) -> (s: String)
    ensures
        s@ == text@ + ordinal_suffix(text@),
{
    String::from_str(text).concat(suffix_of_decimal(text))
}

} // verus!
