//! Formats integers as English ordinal numbers: `1st`, `2nd`, `3rd`, `4th`, ...
//!
//! [`Ordinal`] wraps any [`DecimalInteger`]: the machine integers of every
//! width, and [`Numeral`] for integers of any size. The suffix is read off
//! the last two characters of the number's decimal notation.

use vstd::prelude::*;

pub mod decimal;
pub mod integer;
pub mod laws;
pub mod numeral;
pub mod suffix;

pub use crate::integer::DecimalInteger;
pub use crate::numeral::Numeral;

verus! {

/// Wrapper that writes an integer as an ordinal number.
#[derive(Copy, Debug, Default, Eq, PartialEq, Ord, PartialOrd, Hash)]
pub struct Ordinal<T>(pub T);

impl<T: Clone> Clone for Ordinal<T> {
    fn clone(&self) -> (r: Self)
        ensures
            cloned(self.0, r.0),
    {
        Ordinal(self.0.clone())
    }
}

impl<T: DecimalInteger> View for Ordinal<T> {
    type V = int;

    /// The integer that is wrapped.
    open spec fn view(&self) -> int {
        self.0.as_int()
    }
}

impl<T: DecimalInteger> Ordinal<T> {
    /// Returns just the suffix for the ordinal: `st` after a final `1`,
    /// `nd` after a final `2`, `rd` after a final `3`, and `th` otherwise,
    /// the endings `11`, `12` and `13` included.
    pub fn suffix(&self) -> (r: &'static str)
        ensures
            r@ == suffix::ordinal_suffix(decimal::decimal(self@)),
            suffix::ends_in(decimal::decimal(self@), '1') ==> r@ == suffix::st(),
            suffix::ends_in(decimal::decimal(self@), '2') ==> r@ == suffix::nd(),
            suffix::ends_in(decimal::decimal(self@), '3') ==> r@ == suffix::rd(),
            !suffix::ends_in(decimal::decimal(self@), '1') && !suffix::ends_in(
                decimal::decimal(self@),
                '2',
            ) && !suffix::ends_in(decimal::decimal(self@), '3') ==> r@ == suffix::th(),
    {
        let text = self.0.to_decimal();
        proof {
            suffix::lemma_ends_with_by_index(text@, '1');
            suffix::lemma_ends_with_by_index(text@, '2');
            suffix::lemma_ends_with_by_index(text@, '3');
        }
        suffix::suffix_of_decimal(text.as_str())
    }

    /// Returns the number in decimal notation, sign included, followed by
    /// its suffix and nothing else.
    pub fn to_string(&self) -> (s: String)
        ensures
            s@ == decimal::decimal(self@) + suffix::ordinal_suffix(decimal::decimal(self@)),
    {
        let text = self.0.to_decimal();
        suffix::format_decimal(text.as_str())
    }
}

} // verus!
