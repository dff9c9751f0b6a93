//! Shell quoting, through the shell-words crate.

use vstd::prelude::*;

verus! {

/// What `shell_words::quote` makes of a word: text the shell reads back as that word.
pub uninterp spec fn shell_quoted(word: Seq<char>) -> Seq<char>;

/// Relies on shell_words::quote: the quoted form depends on the word alone.
#[verifier::external_body]
pub(crate) fn quote(word: &str) -> (r: String)
    ensures
        r@ == shell_quoted(word@),
{
    shell_words::quote(word).into_owned()
}

/// Words separated by single spaces.
pub open spec fn space_joined(words: Seq<Seq<char>>) -> Seq<char>
    decreases words.len(),
{
    if words.len() == 0 {
        Seq::empty()
    } else if words.len() == 1 {
        words[0]
    } else {
        space_joined(words.drop_last()) + seq![' '] + words.last()
    }
}

/// A command line: each word quoted, then joined by single spaces.
pub open spec fn command_line(words: Seq<Seq<char>>) -> Seq<char> {
    space_joined(words.map_values(|w: Seq<char>| shell_quoted(w)))
}

/// Relies on shell_words::join: each word quoted with `quote`, joined by single spaces.
#[verifier::external_body]
pub(crate) fn join(words: &Vec<String>) -> (r: String)
    ensures
        r@ == command_line(words@.map_values(|w: String| w@)),
{
    shell_words::join(words)
}

} // verus!
