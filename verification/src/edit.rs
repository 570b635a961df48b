use crate::store::TodoError;
use crate::text::char_count_bound;
use vstd::prelude::*;

verus! {

/// Whether the first comma of `text` stands at position `at`.
pub open spec fn first_comma_at(text: Seq<char>, at: int) -> bool {
    &&& 0 <= at < text.len()
    &&& text[at] == ','
    &&& forall|i: int| 0 <= i < at ==> text[i] != ','
}

/// The position of the first comma of a text that has one.
pub open spec fn first_comma(text: Seq<char>) -> int {
    choose|at: int| first_comma_at(text, at)
}

/// The two parts of the argument of an edit: what stands before its first
/// comma, which is to name the task, and what stands after it, which is the
/// new text. Only the first comma parts the argument: any further comma
/// belongs to the new text. An argument without a comma has no parts.
pub open spec fn edit_parts(argument: Seq<char>) -> Option<(Seq<char>, Seq<char>)> {
    if argument.contains(',') {
        let at = first_comma(argument);
        Some((argument.take(at), argument.skip(at + 1)))
    } else {
        None
    }
}

/// A text has its first comma at one position only.
pub proof fn lemma_first_comma_unique(text: Seq<char>, at: int)
    requires
        first_comma_at(text, at),
    ensures
        text.contains(','),
        first_comma(text) == at,
{
}

/// Parts the argument of an edit at its first comma, as [`edit_parts`]
/// defines it. An argument without a comma is refused.
pub fn split_edit(argument: &str) -> (parts: Result<(String, String), TodoError>)
    ensures
        match parts {
            Ok((index, task)) => {
                &&& edit_parts(argument@) == Some((index@, task@))
                &&& !index@.contains(',')
                &&& argument@ == index@ + seq![','] + task@
            },
            Err(error) => {
                &&& error == TodoError::MalformedEditArgument
                &&& !argument@.contains(',')
                &&& edit_parts(argument@) is None
            },
        },
{
    let bound = char_count_bound(argument);
    let mut at: usize = 0;
    for c in it: argument.chars()
        invariant
            it.seq() == argument@,
            argument@.len() <= bound,
            at == it.index(),
            forall|i: int| 0 <= i < at ==> argument@[i] != ',',
    {
        if c == ',' {
            let index = argument.substring_char(0, at);
            let task = argument.substring_char(at + 1, argument.unicode_len());
            proof {
                lemma_first_comma_unique(argument@, at as int);
            }
            return Ok((index.to_owned(), task.to_owned()));
        }
        at = at + 1;
    }
    Err(TodoError::MalformedEditArgument)
}

} // verus!
