//! The owner of the store: the one place where operations are carried out,
//! one at a time and in the order in which they arrive.
//!
//! The owner takes what its queue hands it and says what to do next. Waiting
//! on the queue and delivering a reply are left to the caller, which hands in
//! each request together with the destination for its reply. The destination
//! is any value the caller likes; the owner passes it through untouched.

use crate::command::{Operation, OperationView};
use crate::reply::{Reply, ReplyView};
use crate::store::{contents_after, lookup, reply_to, Contents, Store};
use vstd::prelude::*;

verus! {

/// One operation on its way to the owner, with the destination for its
/// reply. A destination belongs to one request and is used for one reply.
pub struct Request<D> {
    pub operation: Operation,
    pub reply_to: D,
}

/// What the owner does after looking at its queue.
pub enum OwnerAction<D> {
    /// Send `reply` to `to`, then look at the queue again.
    Deliver { reply: Reply, to: D },
    /// The queue is closed and empty: stop.
    Stop,
}

/// The contents after a sequence of operations, carried out from left to
/// right.
pub open spec fn contents_after_all(contents: Contents, ops: Seq<OperationView>) -> Contents
    decreases ops.len(),
{
    if ops.len() == 0 {
        contents
    } else {
        contents_after(contents_after_all(contents, ops.drop_last()), ops.last())
    }
}

/// The replies to a sequence of operations carried out from left to right,
/// one reply for each operation and in the same order.
pub open spec fn replies_to_all(contents: Contents, ops: Seq<OperationView>) -> Seq<ReplyView> {
    Seq::new(ops.len(), |i: int| reply_to(contents_after_all(contents, ops.take(i)), ops[i]))
}

/// Whether an operation writes to `key`: sets it or deletes it.
pub open spec fn writes_to(op: OperationView, key: Seq<char>) -> bool {
    match op {
        OperationView::SetValue { key: written, value } => written == key,
        OperationView::Delete { key: written } => written == key,
        _ => false,
    }
}

/// Whether an operation sets `key`.
pub open spec fn sets(op: OperationView, key: Seq<char>) -> bool {
    match op {
        OperationView::SetValue { key: written, value } => written == key,
        _ => false,
    }
}

/// Carrying out `first` and then `second` is carrying out the two in a row.
pub proof fn lemma_contents_after_concat(
    contents: Contents,
    first: Seq<OperationView>,
    second: Seq<OperationView>,
)
    ensures
        contents_after_all(contents, first + second) == contents_after_all(
            contents_after_all(contents, first),
            second,
        ),
    decreases second.len(),
{
    if second.len() == 0 {
        assert(first + second =~= first);
    } else {
        lemma_contents_after_concat(contents, first, second.drop_last());
        assert((first + second).drop_last() =~= first + second.drop_last());
    }
}

/// Operations that do not write to a key leave what is under it alone.
pub proof fn lemma_untouched_key(contents: Contents, ops: Seq<OperationView>, key: Seq<char>)
    requires
        forall|i: int| 0 <= i < ops.len() ==> !writes_to(#[trigger] ops[i], key),
    ensures
        lookup(contents_after_all(contents, ops), key) == lookup(contents, key),
    decreases ops.len(),
{
    if ops.len() > 0 {
        lemma_untouched_key(contents, ops.drop_last(), key);
    }
}

/// A key that the store does not hold stays absent as long as no operation
/// sets it: a `GET` of it reports nothing, whatever else was served in
/// between. This holds of a key that was never set, with the empty store to
/// start from, and of a key that was deleted, with the store after the
/// `DELETE` to start from.
pub proof fn lemma_absent_until_set(contents: Contents, ops: Seq<OperationView>, key: Seq<char>)
    requires
        !contents.contains_key(key),
        forall|i: int| 0 <= i < ops.len() ==> !sets(#[trigger] ops[i], key),
    ensures
        !contents_after_all(contents, ops).contains_key(key),
        reply_to(contents_after_all(contents, ops), OperationView::Get { key })
            == ReplyView::Success(None),
    decreases ops.len(),
{
    if ops.len() > 0 {
        lemma_absent_until_set(contents, ops.drop_last(), key);
    }
}

/// A `GET` of a key that no operation has set reports nothing, whatever the
/// owner has served since it started with an empty store.
pub proof fn lemma_get_never_set(ops: Seq<OperationView>, key: Seq<char>)
    requires
        forall|i: int| 0 <= i < ops.len() ==> !sets(#[trigger] ops[i], key),
    ensures
        reply_to(contents_after_all(Map::empty(), ops), OperationView::Get { key })
            == ReplyView::Success(None),
{
    lemma_absent_until_set(Map::empty(), ops, key);
}

/// A `GET` of a key that was deleted reports nothing, whatever the owner has
/// served since the `DELETE`, as long as nothing has set the key again.
pub proof fn lemma_get_after_delete(contents: Contents, key: Seq<char>, ops: Seq<OperationView>)
    requires
        forall|i: int| 0 <= i < ops.len() ==> !sets(#[trigger] ops[i], key),
    ensures
        reply_to(
            contents_after_all(contents, seq![OperationView::Delete { key }] + ops),
            OperationView::Get { key },
        ) == ReplyView::Success(None),
{
    let delete = OperationView::Delete { key };
    lemma_contents_after_concat(contents, seq![delete], ops);
    assert(contents_after_all(contents, seq![delete]) == contents.remove(key)) by {
        assert(contents_after_all(contents, seq![delete].drop_last()) == contents);
    }
    lemma_absent_until_set(contents.remove(key), ops, key);
}

/// A `DELETE` of an absent key can be repeated any number of times: every
/// one of them reports nothing, and the store stays as it was.
pub proof fn lemma_repeated_delete(contents: Contents, key: Seq<char>, times: nat)
    requires
        !contents.contains_key(key),
    ensures
        ({
            let ops = Seq::new(times, |i: int| OperationView::Delete { key });
            &&& contents_after_all(contents, ops) == contents
            &&& forall|i: int|
                0 <= i < times ==> #[trigger] replies_to_all(contents, ops)[i]
                    == ReplyView::Success(None)
        }),
    decreases times,
{
    let ops = Seq::new(times, |i: int| OperationView::Delete { key });
    if times > 0 {
        let fewer = Seq::new((times - 1) as nat, |i: int| OperationView::Delete { key });
        lemma_repeated_delete(contents, key, (times - 1) as nat);
        assert(ops.drop_last() =~= fewer);
        assert forall|i: int| 0 <= i < times implies #[trigger] replies_to_all(contents, ops)[i]
            == ReplyView::Success(None) by {
            if i < times - 1 {
                assert(ops.take(i) =~= fewer.take(i));
            } else {
                assert(ops.take(i) =~= fewer);
            }
        }
    }
}

/// The owner serves in one order, and the last write to a key decides what
/// a `GET` of it reports. After a `SET` of `key`, and whatever was served
/// before it, a `GET` reports that `SET`'s value for as long as nothing else
/// writes to `key`: the whole value, and never one that was not written.
pub proof fn lemma_last_set_wins(
    contents: Contents,
    before: Seq<OperationView>,
    key: Seq<char>,
    value: Seq<char>,
    after: Seq<OperationView>,
)
    requires
        forall|i: int| 0 <= i < after.len() ==> !writes_to(#[trigger] after[i], key),
    ensures
        reply_to(
            contents_after_all(
                contents,
                before + seq![OperationView::SetValue { key, value }] + after,
            ),
            OperationView::Get { key },
        ) == ReplyView::Success(Some(value)),
{
    let set = OperationView::SetValue { key, value };
    let served = contents_after_all(contents, before);
    lemma_contents_after_concat(contents, before, seq![set]);
    lemma_contents_after_concat(contents, before + seq![set], after);
    assert(contents_after_all(served, seq![set]) == served.insert(key, value)) by {
        assert(contents_after_all(served, seq![set].drop_last()) == served);
    }
    lemma_untouched_key(served.insert(key, value), after, key);
}

/// Of two `SET`s of one key, the one that the owner serves second decides:
/// a `GET` after both reports its value, in whichever order the two came.
pub proof fn lemma_two_sets(contents: Contents, key: Seq<char>, one: Seq<char>, other: Seq<char>)
    ensures
        reply_to(
            contents_after_all(
                contents,
                seq![
                    OperationView::SetValue { key, value: one },
                    OperationView::SetValue { key, value: other },
                ],
            ),
            OperationView::Get { key },
        ) == ReplyView::Success(Some(other)),
        reply_to(
            contents_after_all(
                contents,
                seq![
                    OperationView::SetValue { key, value: other },
                    OperationView::SetValue { key, value: one },
                ],
            ),
            OperationView::Get { key },
        ) == ReplyView::Success(Some(one)),
{
    let set_one = OperationView::SetValue { key, value: one };
    let set_other = OperationView::SetValue { key, value: other };
    let none = Seq::<OperationView>::empty();
    lemma_last_set_wins(contents, seq![set_one], key, other, none);
    assert(seq![set_one] + seq![set_other] + none =~= seq![set_one, set_other]);
    lemma_last_set_wins(contents, seq![set_other], key, one, none);
    assert(seq![set_other] + seq![set_one] + none =~= seq![set_other, set_one]);
}

/// The owner of the store. Nothing else holds the store, so every change to
/// it is one turn of the owner, and the turns come one after another.
pub struct Owner {
    store: Store,
    served: Ghost<Seq<OperationView>>,
}

impl Owner {
    /// What the store holds.
    pub closed spec fn contents(&self) -> Contents {
        self.store@
    }

    /// The operations served so far, oldest first.
    pub closed spec fn history(&self) -> Seq<OperationView> {
        self.served@
    }

    /// The owner's invariant: the store holds what the operations served so
    /// far have made of an empty store, in the order in which they were
    /// served. No update is lost and none is applied out of turn.
    pub open spec fn wf(&self) -> bool {
        self.contents() == contents_after_all(Map::empty(), self.history())
    }

    /// An owner with an empty store that has served nothing yet.
    pub fn new() -> (owner: Owner)
        ensures
            owner.wf(),
            owner.history() == Seq::<OperationView>::empty(),
            owner.contents() == Map::<Seq<char>, Seq<char>>::empty(),
    {
        Owner { store: Store::new(), served: Ghost(Seq::empty()) }
    }

    /// One turn of the owner. `received` is what the queue gave: the next
    /// request, or `None` where the queue is closed and empty. A request is
    /// carried out on the store and its reply goes to the destination that
    /// came with it, and to no other. The reply is the one that the history
    /// of served operations calls for. A closed queue changes nothing.
    pub fn step<D>(&mut self, received: Option<Request<D>>) -> (action: OwnerAction<D>)
        requires
            old(self).wf(),
        ensures
            final(self).wf(),
            match received {
                Some(request) => {
                    &&& final(self).history() == old(self).history().push(request.operation@)
                    &&& final(self).contents() == contents_after(
                        old(self).contents(),
                        request.operation@,
                    )
                    &&& action matches OwnerAction::Deliver { reply, to }
                    &&& reply@ == reply_to(old(self).contents(), request.operation@)
                    &&& reply@ == replies_to_all(Map::empty(), final(self).history()).last()
                    &&& to == request.reply_to
                },
                None => {
                    &&& final(self).history() == old(self).history()
                    &&& final(self).contents() == old(self).contents()
                    &&& action is Stop
                },
            },
    {
        match received {
            Some(request) => {
                let ghost op = request.operation@;
                let ghost before = self.served@;
                let reply = self.store.apply(request.operation);
                proof {
                    self.served@ = before.push(op);
                    assert(before.push(op).drop_last() =~= before);
                    assert(before.push(op).take(before.len() as int) =~= before);
                }
                OwnerAction::Deliver { reply, to: request.reply_to }
            },
            None => OwnerAction::Stop,
        }
    }
}

} // verus!
