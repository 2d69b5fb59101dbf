//! The outcome of one operation, and the line of text that reports it to the
//! client.

use vstd::prelude::*;

verus! {

/// What the owner of the store answers to one operation.
#[derive(Debug, PartialEq, Eq)]
pub enum Reply {
    /// The operation was carried out. `Some` holds the text to report, `None`
    /// says that there was no value under the key.
    Success(Option<String>),
    /// The operation was refused, for the reason given.
    Failure(String),
}

/// A reply as contracts see it.
pub enum ReplyView {
    Success(Option<Seq<char>>),
    Failure(Seq<char>),
}

impl View for Reply {
    type V = ReplyView;

    open spec fn view(&self) -> ReplyView {
        match self {
            Reply::Success(Some(text)) => ReplyView::Success(Some(text@)),
            Reply::Success(None) => ReplyView::Success(None),
            Reply::Failure(reason) => ReplyView::Failure(reason@),
        }
    }
}

impl Clone for Reply {
    fn clone(&self) -> (copy: Reply)
        ensures
            copy == *self,
    {
        match self {
            Reply::Success(Some(text)) => Reply::Success(Some(text.clone())),
            Reply::Success(None) => Reply::Success(None),
            Reply::Failure(reason) => Reply::Failure(reason.clone()),
        }
    }
}

/// What a session has in hand when its wait for a reply is over: the reply,
/// or nothing where the reply's destination was closed without one.
pub open spec fn outcome_view(outcome: Option<Reply>) -> Option<ReplyView> {
    match outcome {
        Some(reply) => Some(reply@),
        None => None,
    }
}

/// `text` as one line: with a newline added at its end unless it ends in one
/// already.
pub open spec fn terminated(text: Seq<char>) -> Seq<char> {
    if text.len() > 0 && text.last() == '\n' {
        text
    } else {
        text.push('\n')
    }
}

/// The line a client gets where the owner dropped the request unanswered.
pub open spec fn internal_error_line() -> Seq<char> {
    "Internal server error: Handler task failed.\n"@
}

/// The line that reports an outcome to the client.
pub open spec fn response_of(outcome: Option<ReplyView>) -> Seq<char> {
    match outcome {
        Some(ReplyView::Success(Some(text))) => terminated(text),
        Some(ReplyView::Success(None)) => seq!['\n'],
        Some(ReplyView::Failure(reason)) => terminated(reason),
        None => internal_error_line(),
    }
}

/// A terminated text is not empty and ends in a newline; the text itself is
/// unchanged in front of it.
pub proof fn lemma_terminated_is_a_line(text: Seq<char>)
    ensures
        terminated(text).len() > 0,
        terminated(text).last() == '\n',
        terminated(text) == text || terminated(text) == text.push('\n'),
{
}

/// Every response ends in a newline, whatever the outcome.
pub proof fn lemma_response_ends_in_newline(outcome: Option<ReplyView>)
    ensures
        response_of(outcome).len() > 0,
        response_of(outcome).last() == '\n',
{
    reveal_strlit("Internal server error: Handler task failed.\n");
}

/// Whether `text` ends in a newline.
pub fn ends_with_newline(text: &str) -> (yes: bool)
    ensures
        yes == (text@.len() > 0 && text@.last() == '\n'),
{
    let mut yes = false;
    for c in it: text.chars()
        invariant
            it.seq() == text@,
            yes == (it.index() > 0 && text@[it.index() - 1] == '\n'),
    {
        yes = c == '\n';
    }
    yes
}

/// Makes one line of `text`: adds the newline that it lacks.
pub fn terminate(text: String) -> (line: String)
    ensures
        line@ == terminated(text@),
{
    let mut line = text;
    if !ends_with_newline(line.as_str()) {
        line.push('\n');
    }
    line
}

/// The line to write to the client for the outcome of its request.
pub fn response_line(outcome: Option<Reply>) -> (line: String)
    ensures
        line@ == response_of(outcome_view(outcome)),
{
    match outcome {
        Some(Reply::Success(Some(text))) => terminate(text),
        Some(Reply::Success(None)) => {
            let mut line = String::new();
            line.push('\n');
            line
        },
        Some(Reply::Failure(reason)) => terminate(reason),
        None => "Internal server error: Handler task failed.\n".to_owned(),
    }
}

} // verus!
