//! The store: a map from keys to values, and what each operation does to it.

use crate::command::{Operation, OperationView};
use crate::reply::{Reply, ReplyView};
use vstd::hash_map::StringHashMap;
use vstd::prelude::*;

verus! {

/// The contents of a store as contracts see them.
pub type Contents = Map<Seq<char>, Seq<char>>;

/// The text that reports a stored value.
pub open spec fn ok_text() -> Seq<char> {
    "Ok"@
}

/// The reason given for refusing an invalid operation.
pub open spec fn error_text() -> Seq<char> {
    "Error command"@
}

/// What is stored under `key`, if anything.
pub open spec fn lookup(contents: Contents, key: Seq<char>) -> Option<Seq<char>> {
    if contents.contains_key(key) {
        Some(contents[key])
    } else {
        None
    }
}

/// The contents after an operation. A `SET` puts the value under the key,
/// over what was there; a `DELETE` removes the key; nothing else changes
/// anything.
pub open spec fn contents_after(contents: Contents, op: OperationView) -> Contents {
    match op {
        OperationView::SetValue { key, value } => contents.insert(key, value),
        OperationView::Get { key } => contents,
        OperationView::Delete { key } => contents.remove(key),
        OperationView::Invalid => contents,
    }
}

/// The reply to an operation on the given contents. A `SET` always reports
/// `Ok`; a `GET` reports the value under the key; a `DELETE` reports the
/// value that it removed; both report nothing where the key is absent. An
/// invalid operation fails.
pub open spec fn reply_to(contents: Contents, op: OperationView) -> ReplyView {
    match op {
        OperationView::SetValue { key, value } => ReplyView::Success(Some(ok_text())),
        OperationView::Get { key } => ReplyView::Success(lookup(contents, key)),
        OperationView::Delete { key } => ReplyView::Success(lookup(contents, key)),
        OperationView::Invalid => ReplyView::Failure(error_text()),
    }
}

/// A `GET` that follows a `SET` of the same key on the same store reports the
/// value that was set.
pub proof fn lemma_get_after_set(contents: Contents, key: Seq<char>, value: Seq<char>)
    ensures
        reply_to(
            contents_after(contents, OperationView::SetValue { key, value }),
            OperationView::Get { key },
        ) == ReplyView::Success(Some(value)),
{
}

/// A `GET` of a key that the store does not hold reports nothing and leaves
/// the store as it is.
pub proof fn lemma_get_absent(contents: Contents, key: Seq<char>)
    requires
        !contents.contains_key(key),
    ensures
        reply_to(contents, OperationView::Get { key }) == ReplyView::Success(None),
        contents_after(contents, OperationView::Get { key }) == contents,
{
}

/// A `DELETE` of a key that the store holds reports the value that was under
/// it, and a `GET` of that key right after reports nothing.
pub proof fn lemma_delete_present(contents: Contents, key: Seq<char>)
    requires
        contents.contains_key(key),
    ensures
        reply_to(contents, OperationView::Delete { key }) == ReplyView::Success(
            Some(contents[key]),
        ),
        reply_to(
            contents_after(contents, OperationView::Delete { key }),
            OperationView::Get { key },
        ) == ReplyView::Success(None),
{
}

/// A `DELETE` of a key that the store does not hold reports nothing and
/// leaves the store as it is.
pub proof fn lemma_delete_absent(contents: Contents, key: Seq<char>)
    requires
        !contents.contains_key(key),
    ensures
        reply_to(contents, OperationView::Delete { key }) == ReplyView::Success(None),
        contents_after(contents, OperationView::Delete { key }) == contents,
{
}

/// The key-value store. It lives in memory only and has one owner.
pub struct Store {
    entries: StringHashMap<String>,
}

impl View for Store {
    type V = Contents;

    closed spec fn view(&self) -> Contents {
        self.entries@.map_values(|value: String| value@)
    }
}

impl Store {
    /// An empty store.
    pub fn new() -> (store: Store)
        ensures
            store@ == Map::<Seq<char>, Seq<char>>::empty(),
    {
        Store { entries: StringHashMap::new() }
    }

    /// Puts `value` under `key`. An earlier value is dropped.
    pub fn set(&mut self, key: String, value: String)
        ensures
            final(self)@ == old(self)@.insert(key@, value@),
    {
        self.entries.insert(key, value);
    }

    /// A copy of the value under `key`.
    pub fn get(&self, key: &str) -> (found: Option<String>)
        ensures
            found.deep_view() == lookup(self@, key@),
    {
        match self.entries.get(key) {
            Some(value) => Some(value.clone()),
            None => None,
        }
    }

    /// Removes `key` and hands back the value that was under it.
    pub fn delete(&mut self, key: &str) -> (removed: Option<String>)
        ensures
            removed.deep_view() == lookup(old(self)@, key@),
            final(self)@ == old(self)@.remove(key@),
    {
        let removed = self.get(key);
        self.entries.remove(key);
        removed
    }

    /// Carries out one operation and says what to reply.
    pub fn apply(&mut self, op: Operation) -> (reply: Reply)
        ensures
            final(self)@ == contents_after(old(self)@, op@),
            reply@ == reply_to(old(self)@, op@),
    {
        match op {
            Operation::SetValue { key, value } => {
                self.set(key, value);
                Reply::Success(Some("Ok".to_owned()))
            },
            Operation::Get { key } => Reply::Success(self.get(key.as_str())),
            Operation::Delete { key } => Reply::Success(self.delete(key.as_str())),
            Operation::Invalid => Reply::Failure("Error command".to_owned()),
        }
    }
}

} // verus!
