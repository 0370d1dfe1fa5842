//! Finding a phrase inside a line of text.

use vstd::prelude::*;

verus! {

/// `phrase` stands in `line` starting at index `at`.
pub open spec fn occurs_at(phrase: Seq<char>, line: Seq<char>, at: int) -> bool {
    &&& 0 <= at
    &&& at + phrase.len() <= line.len()
    &&& line.subrange(at, at + phrase.len()) == phrase
}

/// `phrase` stands somewhere in `line` as a contiguous run of characters.
pub open spec fn occurs_in(phrase: Seq<char>, line: Seq<char>) -> bool {
    exists|at: int| occurs_at(phrase, line, at)
}

/// Searches `line` for `phrase` with `str::contains` of the standard
/// library.
///
/// Trusted, not proved: the answer is taken to be `true` exactly when
/// `phrase` is a contiguous part of `line`, which is what the documentation
/// of `str::contains` promises for a string pattern. Both strings are valid
/// UTF-8, so a match on their bytes is a match on their characters.
#[verifier::external_body]
pub(crate) fn contains_phrase(line: &str, phrase: &str) -> (found: bool)
    ensures
        found == occurs_in(phrase@, line@),
{
    line.contains(phrase)
}

/// Every phrase stands in itself.
pub proof fn lemma_occurs_in_itself(phrase: Seq<char>)
    ensures
        occurs_in(phrase, phrase),
{
    assert(phrase.subrange(0, phrase.len() as int) =~= phrase);
    assert(occurs_at(phrase, phrase, 0));
}

/// Text before and after a phrase does not hide it.
pub proof fn lemma_occurs_between(before: Seq<char>, phrase: Seq<char>, behind: Seq<char>)
    ensures
        occurs_in(phrase, before + phrase + behind),
{
    let line = before + phrase + behind;
    let at = before.len() as int;
    assert(line.subrange(at, at + phrase.len()) =~= phrase);
    assert(occurs_at(phrase, line, at));
}

/// A phrase longer than the line cannot stand in it.
pub proof fn lemma_longer_phrase_absent(phrase: Seq<char>, line: Seq<char>)
    requires
        phrase.len() > line.len(),
    ensures
        !occurs_in(phrase, line),
{
}

/// A phrase holding a character that the line lacks cannot stand in it.
pub proof fn lemma_foreign_char_absent(phrase: Seq<char>, line: Seq<char>, k: int)
    requires
        0 <= k < phrase.len(),
        !line.contains(phrase[k]),
    ensures
        !occurs_in(phrase, line),
{
    assert forall|at: int| !occurs_at(phrase, line, at) by {
        if occurs_at(phrase, line, at) {
            assert(line.subrange(at, at + phrase.len())[k] == line[at + k]);
        }
    }
}

/// A phrase as long as the line stands in it only if the two agree in
/// every character.
pub proof fn lemma_equal_length_differs(phrase: Seq<char>, line: Seq<char>, k: int)
    requires
        phrase.len() == line.len(),
        0 <= k < phrase.len(),
        phrase[k] != line[k],
    ensures
        !occurs_in(phrase, line),
{
    assert forall|at: int| !occurs_at(phrase, line, at) by {
        if occurs_at(phrase, line, at) {
            assert(line.subrange(at, at + phrase.len())[k] == line[at + k]);
        }
    }
}

} // verus!
