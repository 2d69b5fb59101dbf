//! The protocol as a client sees it: what one request line does to the store
//! and which line comes back, and what holds of every such exchange.

use crate::command::{parse, OperationView};
use crate::reply::{response_of, terminated, ReplyView};
use crate::session::{transition, Phase, SessionActionView, SessionEventView};
use crate::store::{contents_after, error_text, reply_to, Contents};
use crate::text::{is_token, is_whitespace, join, lemma_tokens_are_tokens, tokens};
use vstd::prelude::*;

verus! {

/// What becomes of a request line that the owner serves on the given
/// contents: the contents afterwards, and the response line for the client.
pub open spec fn exchange(contents: Contents, line: Seq<char>) -> (Contents, Seq<char>) {
    (contents_after(contents, parse(line)), response_of(Some(reply_to(contents, parse(line)))))
}

/// The text holds no newline.
pub open spec fn is_single_line(text: Seq<char>) -> bool {
    forall|i: int| 0 <= i < text.len() ==> #[trigger] text[i] != '\n'
}

/// No value in the store holds a newline.
pub open spec fn holds_single_lines(contents: Contents) -> bool {
    forall|key: Seq<char>| contents.contains_key(key) ==> is_single_line(#[trigger] contents[key])
}

/// A key or a value that came out of a parsed line.
pub open spec fn is_parsed_text(op: OperationView, text: Seq<char>) -> bool {
    match op {
        OperationView::SetValue { key, value } => text == key || text == value,
        OperationView::Get { key } => text == key,
        OperationView::Delete { key } => text == key,
        OperationView::Invalid => false,
    }
}

/// Tokens joined by single spaces hold no newline, and no other whitespace
/// than those spaces.
pub proof fn lemma_join_is_single_line(parts: Seq<Seq<char>>)
    requires
        forall|k: int| 0 <= k < parts.len() ==> is_token(#[trigger] parts[k]),
    ensures
        forall|i: int|
            0 <= i < join(parts).len() ==> {
                let c = #[trigger] join(parts)[i];
                c == ' ' || !is_whitespace(c)
            },
        is_single_line(join(parts)),
    decreases parts.len(),
{
    if parts.len() > 1 {
        let front = parts.drop_last();
        let last = parts.last();
        assert forall|k: int| 0 <= k < front.len() implies is_token(#[trigger] front[k]) by {
            assert(front[k] == parts[k]);
        }
        lemma_join_is_single_line(front);
        let joined = join(parts);
        assert forall|i: int| 0 <= i < joined.len() implies {
            let c = #[trigger] joined[i];
            c == ' ' || !is_whitespace(c)
        } by {
            if i < join(front).len() {
                assert(joined[i] == join(front)[i]);
            } else if i > join(front).len() {
                assert(joined[i] == last[i - join(front).len() - 1]);
            }
        }
    }
}

/// The key of a parsed operation is one token: it is not empty and holds no
/// whitespace. The value of a parsed `SET` is not empty either.
pub proof fn lemma_parsed_key_is_token(line: Seq<char>)
    ensures
        match parse(line) {
            OperationView::SetValue { key, value } => is_token(key) && value.len() > 0,
            OperationView::Get { key } => is_token(key),
            OperationView::Delete { key } => is_token(key),
            OperationView::Invalid => true,
        },
{
    let parts = tokens(line);
    lemma_tokens_are_tokens(line, 0);
    if parts.len() >= 3 {
        let rest = parts.skip(2);
        assert(rest.last() == parts.last());
        assert(join(rest).len() >= rest.last().len());
    }
}

/// Neither the key nor the value of a parsed operation holds a newline.
pub proof fn lemma_parsed_text_is_single_line(line: Seq<char>, text: Seq<char>)
    requires
        is_parsed_text(parse(line), text),
    ensures
        is_single_line(text),
{
    let parts = tokens(line);
    lemma_tokens_are_tokens(line, 0);
    if parts.len() >= 3 {
        let rest = parts.skip(2);
        assert forall|k: int| 0 <= k < rest.len() implies is_token(#[trigger] rest[k]) by {
            assert(rest[k] == parts[k + 2]);
        }
        lemma_join_is_single_line(rest);
    }
}

/// A line that stands for no command is answered with the error line, and
/// the store stays as it is.
pub proof fn lemma_invalid_line_is_answered(contents: Contents, line: Seq<char>)
    requires
        parse(line) is Invalid,
    ensures
        exchange(contents, line) == (contents, error_text().push('\n')),
{
    reveal_strlit("Error command");
}

/// A store without newlines in its values has none after any request line,
/// and the response to the line is exactly one line: its only newline is
/// its last character.
pub proof fn lemma_exchange_is_one_line(contents: Contents, line: Seq<char>)
    requires
        holds_single_lines(contents),
    ensures
        holds_single_lines(exchange(contents, line).0),
        ({
            let response = exchange(contents, line).1;
            &&& response.len() > 0
            &&& forall|i: int|
                0 <= i < response.len() ==> (#[trigger] response[i] == '\n' <==> i == response.len()
                    - 1)
        }),
{
    let op = parse(line);
    let after = exchange(contents, line).0;
    reveal_strlit("Ok");
    reveal_strlit("Error command");
    if let OperationView::SetValue { key, value } = op {
        lemma_parsed_text_is_single_line(line, value);
    }
    assert forall|k: Seq<char>| after.contains_key(k) implies is_single_line(
        #[trigger] after[k],
    ) by {
        if !(op matches OperationView::SetValue { key, value } && k == key) {
            assert(contents.contains_key(k));
        }
    }
    match reply_to(contents, op) {
        ReplyView::Success(Some(text)) => lemma_line_of_single_line(text),
        ReplyView::Success(None) => {},
        ReplyView::Failure(reason) => lemma_line_of_single_line(reason),
    }
}

/// One request, one response: a session that reads a line of at least one
/// byte submits the operation it stands for, whatever the line holds; once
/// the owner has answered on contents `contents`, the session writes the
/// response of the exchange, that line and no other, and reads again.
pub proof fn lemma_request_cycle(contents: Contents, bytes_read: usize, line: Seq<char>)
    requires
        bytes_read > 0,
    ensures
        transition(Phase::Reading, SessionEventView::ReadCompleted { bytes_read, line }) == Some(
            (Phase::Submitting, SessionActionView::Submit(parse(line))),
        ),
        transition(Phase::Submitting, SessionEventView::Submitted) == Some(
            (Phase::AwaitingReply, SessionActionView::AwaitReply),
        ),
        transition(
            Phase::AwaitingReply,
            SessionEventView::ReplyReceived(reply_to(contents, parse(line))),
        ) == Some(
            (Phase::Writing, SessionActionView::WriteResponse(exchange(contents, line).1)),
        ),
        transition(Phase::Writing, SessionEventView::ResponseWritten) == Some(
            (Phase::Reading, SessionActionView::ReadLine),
        ),
{
}

/// A session closes on three occasions only: the client has closed the
/// connection, the owner is gone, or the connection has failed. No line and
/// no reply closes it.
pub proof fn lemma_what_closes_a_session(phase: Phase, event: SessionEventView)
    requires
        transition(phase, event) matches Some((next, action)) && next == Phase::Closed,
    ensures
        ({
            ||| phase == Phase::Reading && (event matches SessionEventView::ReadCompleted {
                bytes_read,
                line,
            } && bytes_read == 0)
            ||| phase == Phase::Reading && event is ReadFailed
            ||| phase == Phase::Submitting && event is OwnerUnreachable
            ||| phase == Phase::Writing && event is WriteFailed
        }),
{
}

/// A closed session takes no event.
pub proof fn lemma_closed_is_final(event: SessionEventView)
    ensures
        transition(Phase::Closed, event) is None,
{
}

/// A text without a newline, terminated, is that text and one newline.
pub proof fn lemma_line_of_single_line(text: Seq<char>)
    requires
        is_single_line(text),
    ensures
        terminated(text) == text.push('\n'),
        forall|i: int|
            0 <= i < terminated(text).len() ==> (#[trigger] terminated(text)[i] == '\n' <==> i
                == terminated(text).len() - 1),
{
}

} // verus!
