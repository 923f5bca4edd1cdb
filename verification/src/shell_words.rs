//! Splitting of a line into words as a POSIX shell does it.
use vstd::prelude::*;

use crate::text;

verus! {

/// The words of an optional list of strings.
pub open spec fn optional_texts(words: Option<Vec<String>>) -> Option<Seq<Seq<char>>> {
    match words {
        Some(w) => Some(text::texts(w@)),
        None => None,
    }
}

/// What `shlex::split` makes of a line: its words, or nothing where a quotation or an escape is
/// left open at the end.
pub uninterp spec fn shlex_words(line: Seq<char>) -> Option<Seq<Seq<char>>>;

/// `shlex::split` depends on its argument alone; nothing else is claimed of the words it returns.
#[verifier::external_body]
pub(crate) fn shlex_split(line: &str) -> (words: Option<Vec<String>>)
    ensures
        optional_texts(words) == shlex_words(line@),
{
    shlex::split(line)
}

} // verus!
