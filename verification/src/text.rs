//! Text at the level of characters: which characters separate tokens, how a
//! line falls apart into tokens, and how tokens are joined again.

use vstd::prelude::*;

verus! {

/// The characters that separate tokens: the code points with the Unicode
/// property `White_Space`.
pub open spec fn is_whitespace(c: char) -> bool {
    let n = c as u32;
    ||| 0x09 <= n <= 0x0D
    ||| n == 0x20
    ||| n == 0x85
    ||| n == 0xA0
    ||| n == 0x1680
    ||| 0x2000 <= n <= 0x200A
    ||| n == 0x2028
    ||| n == 0x2029
    ||| n == 0x202F
    ||| n == 0x205F
    ||| n == 0x3000
}

/// No character of `s` is whitespace.
pub open spec fn has_no_whitespace(s: Seq<char>) -> bool {
    forall|i: int| 0 <= i < s.len() ==> !is_whitespace(#[trigger] s[i])
}

/// A token is a non-empty run of characters without whitespace.
pub open spec fn is_token(s: Seq<char>) -> bool {
    s.len() > 0 && has_no_whitespace(s)
}

/// The first position at or after `from` that holds whitespace, or the length
/// of `s` where there is none.
pub open spec fn token_end(s: Seq<char>, from: int) -> int
    decreases s.len() - from,
{
    if 0 <= from < s.len() && !is_whitespace(s[from]) {
        token_end(s, from + 1)
    } else {
        from
    }
}

/// The tokens of `s` that begin at or after `from`, in order.
pub open spec fn tokens_from(s: Seq<char>, from: int) -> Seq<Seq<char>>
    decreases s.len() - from,
    via tokens_from_decreases
{
    if from < 0 || from >= s.len() {
        Seq::empty()
    } else if is_whitespace(s[from]) {
        tokens_from(s, from + 1)
    } else {
        seq![s.subrange(from, token_end(s, from))] + tokens_from(s, token_end(s, from))
    }
}

#[via_fn]
proof fn tokens_from_decreases(s: Seq<char>, from: int) {
    if 0 <= from < s.len() && !is_whitespace(s[from]) {
        lemma_token_end_bounds(s, from + 1);
    }
}

/// The tokens of a line: its maximal runs of characters that are not
/// whitespace, from left to right. Whitespace before the first token, between
/// two tokens and after the last one is dropped, however much there is.
pub open spec fn tokens(s: Seq<char>) -> Seq<Seq<char>> {
    tokens_from(s, 0)
}

/// The parts, in order, with one space between each two of them.
pub open spec fn join(parts: Seq<Seq<char>>) -> Seq<char>
    decreases parts.len(),
{
    if parts.len() == 0 {
        Seq::empty()
    } else if parts.len() == 1 {
        parts[0]
    } else {
        join(parts.drop_last()) + seq![' '] + parts.last()
    }
}

/// Whether `c` separates tokens.
pub fn char_is_whitespace(c: char) -> (b: bool)
    ensures
        b == is_whitespace(c),
{
    let n: u32 = c as u32;
    (0x09 <= n && n <= 0x0D) || n == 0x20 || n == 0x85 || n == 0xA0 || n == 0x1680 || (0x2000 <= n
        && n <= 0x200A) || n == 0x2028 || n == 0x2029 || n == 0x202F || n == 0x205F || n == 0x3000
}

/// Splits a line into its tokens.
pub fn tokenize(line: &str) -> (out: Vec<String>)
    ensures
        out.deep_view() == tokens(line@),
{
    let mut done: Vec<String> = Vec::new();
    let mut current = String::new();
    let ghost s = line@;
    let ghost mut start: int = 0;
    for c in it: line.chars()
        invariant
            it.seq() == s,
            0 <= start <= it.index() <= s.len(),
            current@ == s.subrange(start, it.index()),
            forall|j: int| start <= j < it.index() ==> !is_whitespace(#[trigger] s[j]),
            tokens(s) == done.deep_view() + tokens_from(s, start),
    {
        let ghost i = it.index();
        if char_is_whitespace(c) {
            if !current.as_str().is_empty() {
                proof {
                    lemma_token_end_of_run(s, start, i);
                    assert(tokens_from(s, i) == tokens_from(s, i + 1));
                }
                done.push(current);
                current = String::new();
            }
            proof {
                start = i + 1;
            }
        } else {
            current.push(c);
        }
    }
    if !current.as_str().is_empty() {
        proof {
            lemma_token_end_of_run(s, start, s.len() as int);
            assert(tokens_from(s, s.len() as int) =~= Seq::<Seq<char>>::empty());
        }
        done.push(current);
    }
    done
}

/// Joins the tokens from position `from` on with single spaces.
pub fn join_from(parts: &Vec<String>, from: usize) -> (out: String)
    requires
        from <= parts.len(),
    ensures
        out@ == join(parts.deep_view().skip(from as int)),
{
    let mut out = String::new();
    let ghost all = parts.deep_view();
    let mut i: usize = from;
    while i < parts.len()
        invariant
            from <= i <= parts.len(),
            all == parts.deep_view(),
            out@ == join(all.skip(from as int).take(i - from)),
        decreases parts.len() - i,
    {
        let ghost joined = all.skip(from as int).take(i - from);
        let ghost longer = all.skip(from as int).take(i - from + 1);
        assert(longer.drop_last() =~= joined);
        if i > from {
            out.push(' ');
        }
        out.append(parts[i].as_str());
        i = i + 1;
    }
    assert(all.skip(from as int).take(i - from) =~= all.skip(from as int));
    out
}

/// `String::push` of the standard library: the string afterwards is the
/// string before with `c` as one more character at its end. Taken from the
/// method's documentation, not proved.
pub assume_specification[ String::push ](s: &mut String, c: char)
    ensures
        final(s)@ == old(s)@.push(c),
;

/// What `str::to_uppercase` of the standard library makes of a text: its
/// characters in upper case, as Unicode maps them. The mapping is a table of
/// its own; contracts refer to it by this name.
pub uninterp spec fn uppercase(s: Seq<char>) -> Seq<char>;

/// `str::to_uppercase` of the standard library. The result is the upper-case
/// form of `s`, which depends on `s` alone. Nothing more is claimed of it.
#[verifier::external_body]
pub(crate) fn to_uppercase(s: &str) -> (out: String)
    ensures
        out@ == uppercase(s@),
{
    s.to_uppercase()
}

/// `token_end` stops inside the line, and on whitespace if it stops before
/// the end; everything it passed over is not whitespace.
pub proof fn lemma_token_end_bounds(s: Seq<char>, from: int)
    requires
        0 <= from <= s.len(),
    ensures
        from <= token_end(s, from) <= s.len(),
        token_end(s, from) < s.len() ==> is_whitespace(s[token_end(s, from)]),
        forall|i: int| from <= i < token_end(s, from) ==> !is_whitespace(#[trigger] s[i]),
    decreases s.len() - from,
{
    if from < s.len() && !is_whitespace(s[from]) {
        lemma_token_end_bounds(s, from + 1);
    }
}

/// A run without whitespace that is followed by whitespace, or by the end of
/// the line, is passed over by `token_end` in one go.
pub proof fn lemma_token_end_of_run(s: Seq<char>, from: int, to: int)
    requires
        0 <= from <= to <= s.len(),
        forall|i: int| from <= i < to ==> !is_whitespace(#[trigger] s[i]),
        to < s.len() ==> is_whitespace(s[to]),
    ensures
        token_end(s, from) == to,
    decreases to - from,
{
    if from < to {
        lemma_token_end_of_run(s, from + 1, to);
    }
}

/// Every token of a line is non-empty and free of whitespace.
pub proof fn lemma_tokens_are_tokens(s: Seq<char>, from: int)
    requires
        0 <= from <= s.len(),
    ensures
        forall|k: int|
            0 <= k < tokens_from(s, from).len() ==> is_token(#[trigger] tokens_from(s, from)[k]),
    decreases s.len() - from,
{
    if from < s.len() {
        if is_whitespace(s[from]) {
            lemma_tokens_are_tokens(s, from + 1);
            assert(tokens_from(s, from) == tokens_from(s, from + 1));
        } else {
            let end = token_end(s, from);
            lemma_token_end_bounds(s, from + 1);
            lemma_tokens_are_tokens(s, end);
            assert forall|k: int| 0 <= k < tokens_from(s, from).len() implies is_token(
                #[trigger] tokens_from(s, from)[k],
            ) by {
                if k > 0 {
                    assert(tokens_from(s, from)[k] == tokens_from(s, end)[k - 1]);
                }
            }
        }
    }
}

/// What stands in front of a position does not matter to the tokens from
/// that position on: they are the tokens of the rest of the line.
pub proof fn lemma_tokens_of_suffix(front: Seq<char>, rest: Seq<char>, from: int)
    requires
        0 <= from <= rest.len(),
    ensures
        token_end(front + rest, front.len() + from) == front.len() + token_end(rest, from),
        tokens_from(front + rest, front.len() + from) == tokens_from(rest, from),
    decreases rest.len() - from,
{
    let s = front + rest;
    let at = front.len() + from;
    if from < rest.len() {
        lemma_token_end_bounds(rest, from);
        if is_whitespace(rest[from]) {
            lemma_tokens_of_suffix(front, rest, from + 1);
        } else {
            let end = token_end(rest, from);
            lemma_token_end_bounds(rest, from + 1);
            lemma_tokens_of_suffix(front, rest, from + 1);
            lemma_tokens_of_suffix(front, rest, end);
            assert(s.subrange(at, front.len() + end) =~= rest.subrange(from, end));
        }
    }
}

/// The tokens from a position on are those from the end of the whitespace
/// that starts there.
proof fn lemma_tokens_past_whitespace(s: Seq<char>, from: int, to: int)
    requires
        0 <= from <= to <= s.len(),
        forall|i: int| from <= i < to ==> is_whitespace(#[trigger] s[i]),
    ensures
        tokens_from(s, from) == tokens_from(s, to),
    decreases to - from,
{
    if from < to {
        lemma_tokens_past_whitespace(s, from + 1, to);
    }
}

/// Whitespace in front of a line adds nothing to its tokens.
pub proof fn lemma_tokens_after_whitespace(space: Seq<char>, rest: Seq<char>)
    requires
        forall|i: int| 0 <= i < space.len() ==> is_whitespace(#[trigger] space[i]),
    ensures
        tokens(space + rest) == tokens(rest),
{
    let s = space + rest;
    lemma_tokens_of_suffix(space, rest, 0);
    assert forall|i: int| 0 <= i < space.len() implies is_whitespace(#[trigger] s[i]) by {
        assert(s[i] == space[i]);
    }
    lemma_tokens_past_whitespace(s, 0, space.len() as int);
}

/// A token in front of a line, set off from the rest by whitespace or by the
/// end of the line, is the line's first token; the others are the tokens of
/// the rest.
pub proof fn lemma_tokens_after_token(token: Seq<char>, rest: Seq<char>)
    requires
        is_token(token),
        rest.len() == 0 || is_whitespace(rest[0]),
    ensures
        tokens(token + rest) == seq![token] + tokens(rest),
{
    let s = token + rest;
    let n = token.len() as int;
    assert forall|i: int| 0 <= i < n implies !is_whitespace(#[trigger] s[i]) by {
        assert(s[i] == token[i]);
    }
    if rest.len() > 0 {
        assert(s[n] == rest[0]);
    }
    lemma_token_end_of_run(s, 0, n);
    lemma_tokens_of_suffix(token, rest, 0);
    assert(s.subrange(0, n) =~= token);
}

/// Joining starts with the first part: the rest follows after one space.
pub proof fn lemma_join_first(parts: Seq<Seq<char>>)
    requires
        parts.len() >= 2,
    ensures
        join(parts) == parts[0] + seq![' '] + join(parts.skip(1)),
    decreases parts.len(),
{
    let tail = parts.skip(1);
    if parts.len() == 2 {
        assert(join(parts.drop_last()) == parts[0]);
    } else {
        let front = parts.drop_last();
        lemma_join_first(front);
        assert(front.skip(1) =~= tail.drop_last());
    }
}

/// Splitting undoes joining: tokens joined by single spaces make a line
/// whose tokens are the same ones again.
pub proof fn lemma_tokens_of_join(parts: Seq<Seq<char>>)
    requires
        forall|k: int| 0 <= k < parts.len() ==> is_token(#[trigger] parts[k]),
    ensures
        tokens(join(parts)) == parts,
    decreases parts.len(),
{
    if parts.len() == 1 {
        lemma_tokens_after_token(parts[0], Seq::empty());
        assert(parts[0] + Seq::<char>::empty() =~= parts[0]);
    } else if parts.len() > 1 {
        let tail = parts.skip(1);
        let rest = seq![' '] + join(tail);
        lemma_tokens_of_join(tail);
        lemma_join_first(parts);
        lemma_tokens_after_whitespace(seq![' '], join(tail));
        lemma_tokens_after_token(parts[0], rest);
        assert(join(parts) =~= parts[0] + rest);
    }
}

} // verus!
