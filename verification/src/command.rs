//! The operations a client can ask for, and the grammar that turns one line
//! of text into one operation.

use crate::text::{join, join_from, to_uppercase, tokenize, tokens, uppercase};
use vstd::prelude::*;

verus! {

/// One request against the store.
#[derive(Debug, PartialEq, Eq)]
pub enum Operation {
    /// Store `value` under `key`, replacing what was there.
    SetValue { key: String, value: String },
    /// Look up `key`.
    Get { key: String },
    /// Remove `key`.
    Delete { key: String },
    /// A line that is no command.
    Invalid,
}

/// An operation as contracts see it: the same variants over sequences of
/// characters.
pub enum OperationView {
    SetValue { key: Seq<char>, value: Seq<char> },
    Get { key: Seq<char> },
    Delete { key: Seq<char> },
    Invalid,
}

impl View for Operation {
    type V = OperationView;

    open spec fn view(&self) -> OperationView {
        match self {
            Operation::SetValue { key, value } => OperationView::SetValue {
                key: key@,
                value: value@,
            },
            Operation::Get { key } => OperationView::Get { key: key@ },
            Operation::Delete { key } => OperationView::Delete { key: key@ },
            Operation::Invalid => OperationView::Invalid,
        }
    }
}

impl Clone for Operation {
    fn clone(&self) -> (copy: Operation)
        ensures
            copy == *self,
    {
        match self {
            Operation::SetValue { key, value } => Operation::SetValue {
                key: key.clone(),
                value: value.clone(),
            },
            Operation::Get { key } => Operation::Get { key: key.clone() },
            Operation::Delete { key } => Operation::Delete { key: key.clone() },
            Operation::Invalid => Operation::Invalid,
        }
    }
}

/// The keyword of the command that stores a value.
pub open spec fn set_keyword() -> Seq<char> {
    seq!['S', 'E', 'T']
}

/// The keyword of the command that looks a key up.
pub open spec fn get_keyword() -> Seq<char> {
    seq!['G', 'E', 'T']
}

/// The keyword of the command that removes a key.
pub open spec fn delete_keyword() -> Seq<char> {
    seq!['D', 'E', 'L', 'E', 'T', 'E']
}

/// The operation that a line's tokens stand for, given the first token in
/// upper case as `keyword`. The key is the second token as it was written.
/// The value of a `SET` is every token after the key, joined by single
/// spaces; what follows the key of a `GET` or a `DELETE` is ignored.
pub open spec fn operation_of(keyword: Seq<char>, tokens: Seq<Seq<char>>) -> OperationView {
    if keyword == set_keyword() && tokens.len() >= 3 {
        OperationView::SetValue { key: tokens[1], value: join(tokens.skip(2)) }
    } else if keyword == get_keyword() && tokens.len() >= 2 {
        OperationView::Get { key: tokens[1] }
    } else if keyword == delete_keyword() && tokens.len() >= 2 {
        OperationView::Delete { key: tokens[1] }
    } else {
        OperationView::Invalid
    }
}

/// The operation that a line of text stands for. A line without a token,
/// with a keyword that is none of the three, or with too few tokens after
/// the keyword is `Invalid`.
pub open spec fn parse(line: Seq<char>) -> OperationView {
    let parts = tokens(line);
    if parts.len() == 0 {
        OperationView::Invalid
    } else {
        operation_of(uppercase(parts[0]), parts)
    }
}

/// Whether `text` holds the characters of `word`.
fn is_word(text: &String, word: &str) -> (same: bool)
    ensures
        same == (text@ == word@),
{
    *text == word.to_owned()
}

/// Builds the operation for a tokenized line whose first token, in upper
/// case, is `keyword`.
pub fn operation_for(keyword: &str, tokens: &Vec<String>) -> (op: Operation)
    ensures
        op@ == operation_of(keyword@, tokens.deep_view()),
{
    proof {
        reveal_strlit("SET");
        reveal_strlit("GET");
        reveal_strlit("DELETE");
        assert("SET"@ =~= set_keyword());
        assert("GET"@ =~= get_keyword());
        assert("DELETE"@ =~= delete_keyword());
    }
    let word = keyword.to_owned();
    if is_word(&word, "SET") && tokens.len() >= 3 {
        Operation::SetValue { key: tokens[1].clone(), value: join_from(tokens, 2) }
    } else if is_word(&word, "GET") && tokens.len() >= 2 {
        Operation::Get { key: tokens[1].clone() }
    } else if is_word(&word, "DELETE") && tokens.len() >= 2 {
        Operation::Delete { key: tokens[1].clone() }
    } else {
        Operation::Invalid
    }
}

/// Parses one line of input into the operation it asks for.
pub fn parse_line(line: &str) -> (op: Operation)
    ensures
        op@ == parse(line@),
{
    let parts = tokenize(line);
    if parts.len() == 0 {
        Operation::Invalid
    } else {
        let keyword = to_uppercase(parts[0].as_str());
        operation_for(keyword.as_str(), &parts)
    }
}

} // verus!
