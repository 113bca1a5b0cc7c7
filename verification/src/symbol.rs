//! Trading symbols.

use vstd::prelude::*;

verus! {

/// The sequence of characters that `str::to_uppercase` produces for the
/// given character sequence. The result depends on the characters alone.
pub uninterp spec fn upper_of(s: Seq<char>) -> Seq<char>;

/// Relies on `str::to_uppercase`: the result is a function of the input
/// characters alone, and an empty input yields an empty result.
#[verifier::external_body]
fn to_uppercase_string(s: &str) -> (r: String)
    ensures
        r@ == upper_of(s@),
        s@.len() == 0 ==> r@.len() == 0,
{
    s.to_uppercase()
}

/// A trading symbol/ticker.
///
/// Symbols are uppercased on creation.
#[derive(Debug, PartialEq, Eq, Hash)]
pub struct Symbol(String);

impl View for Symbol {
    type V = Seq<char>;

    closed spec fn view(&self) -> Seq<char> {
        self.0@
    }
}

impl Symbol {
    /// Creates a new symbol from a string, converting to uppercase.
    pub fn new(s: &str) -> (r: Self)
        ensures
            r@ == upper_of(s@),
    {
        Symbol(to_uppercase_string(s))
    }

    /// Creates a symbol from a string that is already in its canonical form;
    /// no case conversion is applied.
    pub fn from_canonical(s: String) -> (r: Self)
        ensures
            r@ == s@,
    {
        Symbol(s)
    }

    /// Returns the symbol as a string slice.
    pub fn as_str(&self) -> (r: &str)
        ensures
            r@ == self@,
    {
        self.0.as_str()
    }

    /// Returns an owned copy of the symbol's text.
    pub fn to_text(&self) -> (r: String)
        ensures
            r@ == self@,
    {
        self.0.clone()
    }
}

impl Clone for Symbol {
    /// The copy denotes the same character sequence.
    fn clone(&self) -> (r: Self)
        ensures
            r@ == self@,
    {
        Symbol(self.0.clone())
    }
}

} // verus!
