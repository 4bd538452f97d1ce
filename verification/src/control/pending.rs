use crate::assoc::{
    distinct_keys, lemma_lookup_upsert, lemma_lookup_without, lemma_upsert_shape, lookup, upsert,
    without, NameMap,
};
use crate::control::messages::ControlResponse;
use tokio::sync::oneshot::Sender;
use vstd::prelude::*;

verus! {

/// The sending end of a one-shot channel of `tokio`, taken as an opaque
/// value.
#[verifier::external_type_specification]
#[verifier::external_body]
#[verifier::reject_recursive_types(T)]
pub struct ExSender<T>(Sender<T>);

/// Calls `send` on the sender of a one-shot channel and tells whether the
/// value was taken. Nothing is promised of the outcome: it is false when the
/// receiver is gone.
#[verifier::external_body]
fn deliver(sender: Sender<ControlResponse>, response: ControlResponse) -> (delivered: bool)
{
    sender.send(response).is_ok()
}

/// The control requests that wait for their responses: the sender of a
/// one-shot channel under the identifier of each request.
pub struct PendingRequests {
    inner: NameMap<Sender<ControlResponse>>,
}

impl View for PendingRequests {
    type V = Seq<(Seq<char>, Sender<ControlResponse>)>;

    closed spec fn view(&self) -> Seq<(Seq<char>, Sender<ControlResponse>)> {
        self.inner@
    }
}

impl PendingRequests {
    /// A table without waiting requests.
    pub fn new() -> (pending: PendingRequests)
        ensures
            pending@ == Seq::<(Seq<char>, Sender<ControlResponse>)>::empty(),
    {
        PendingRequests { inner: NameMap::new() }
    }

    /// Stores the sender for the request `id`, in place of an earlier one
    /// with that identifier.
    pub fn insert(&mut self, id: String, sender: Sender<ControlResponse>)
        ensures
            final(self)@ == upsert(old(self)@, id@, sender),
    {
        self.inner.insert(id, sender);
    }

    /// Takes the sender of the request `id` out of the table.
    pub fn take(&mut self, id: &str) -> (sender: Option<Sender<ControlResponse>>)
        ensures
            final(self)@ == without(old(self)@, id@),
            sender == lookup(old(self)@, id@),
    {
        self.inner.remove(id)
    }

    /// Completes the request `id`: takes its sender out of the table and
    /// hands the response to it. Returns true when the waiting side took the
    /// response, and false when no such request waits or its receiver is gone.
    pub fn complete(&mut self, id: &str, response: ControlResponse) -> (delivered: bool)
        ensures
            final(self)@ == without(old(self)@, id@),
            lookup(old(self)@, id@) is None ==> !delivered,
    {
        match self.take(id) {
            Some(sender) => deliver(sender, response),
            None => false,
        }
    }

    /// Removes the request `id` without a response; after that no request
    /// waits under `id`.
    pub fn cancel(&mut self, id: &str)
        ensures
            final(self)@ == without(old(self)@, id@),
            lookup(final(self)@, id@) is None,
            final(self)@.len() == if lookup(old(self)@, id@) is Some {
                old(self)@.len() - 1
            } else {
                old(self)@.len() as int
            },
    {
        let _ = self.inner.remove(id);
        proof {
            lemma_lookup_without(old(self)@, id@, id@);
            crate::assoc::lemma_without_shape(old(self)@, id@);
        }
    }

    /// The number of waiting requests.
    pub fn len(&self) -> (n: usize)
        ensures
            n == self@.len(),
            distinct_keys(self@),
    {
        self.inner.len()
    }
}

/// Each response reaches the request it answers, and no other. After a
/// request was stored under `id`, completing `id` takes out the sender of
/// that request; the requests under other identifiers keep their senders; and
/// nothing waits under `id` any more, so that a second response for `id`
/// finds no one.
pub proof fn law_response_reaches_its_request<T>(
    waiting: Seq<(Seq<char>, T)>,
    id: Seq<char>,
    sender: T,
    other: Seq<char>,
)
    requires
        distinct_keys(waiting),
        other != id,
    ensures
        lookup(upsert(waiting, id, sender), id) == Some(sender),
        lookup(upsert(waiting, id, sender), other) == lookup(waiting, other),
        lookup(without(upsert(waiting, id, sender), id), other) == lookup(waiting, other),
        lookup(without(upsert(waiting, id, sender), id), id) is None,
{
    let stored = upsert(waiting, id, sender);
    lemma_lookup_upsert(waiting, id, sender, id);
    lemma_lookup_upsert(waiting, id, sender, other);
    lemma_upsert_shape(waiting, id, sender);
    lemma_lookup_without(stored, id, other);
    lemma_lookup_without(stored, id, id);
}

/// Responses may come in any order. Completing one request leaves the
/// sender of every other request in place, whichever is completed first.
pub proof fn law_responses_in_any_order<T>(
    waiting: Seq<(Seq<char>, T)>,
    first: Seq<char>,
    second: Seq<char>,
)
    requires
        distinct_keys(waiting),
        first != second,
    ensures
        lookup(without(waiting, first), second) == lookup(waiting, second),
        lookup(without(waiting, second), first) == lookup(waiting, first),
{
    lemma_lookup_without(waiting, first, second);
    lemma_lookup_without(waiting, second, first);
}

/// The table after the requests `ids` were completed, one after another.
pub open spec fn completed_all<T>(waiting: Seq<(Seq<char>, T)>, ids: Seq<Seq<char>>) -> Seq<
    (Seq<char>, T),
>
    decreases ids.len(),
{
    if ids.len() == 0 {
        waiting
    } else {
        without(completed_all(waiting, ids.drop_last()), ids.last())
    }
}

proof fn lemma_completed<T>(waiting: Seq<(Seq<char>, T)>, ids: Seq<Seq<char>>, key: Seq<char>)
    requires
        distinct_keys(waiting),
    ensures
        distinct_keys(completed_all(waiting, ids)),
        lookup(completed_all(waiting, ids), key) == if ids.contains(key) {
            None
        } else {
            lookup(waiting, key)
        },
    decreases ids.len(),
{
    if ids.len() > 0 {
        let earlier = ids.drop_last();
        let before = completed_all(waiting, earlier);
        lemma_completed(waiting, earlier, key);
        crate::assoc::lemma_without_shape(before, ids.last());
        lemma_lookup_without(before, ids.last(), key);
        if earlier.contains(key) {
            let i = choose|i: int| 0 <= i < earlier.len() && earlier[i] == key;
            assert(ids[i] == key);
        }
        if ids.last() == key {
            assert(ids[ids.len() - 1] == key);
        }
        if ids.contains(key) {
            let i = choose|i: int| 0 <= i < ids.len() && ids[i] == key;
            if i < ids.len() - 1 {
                assert(earlier[i] == key);
            }
        }
    }
}

/// Any number of requests may wait at once, and their responses may come in
/// any order. The response for a request that comes after the responses for
/// other requests finds the sender that was stored under its own identifier;
/// after it nothing waits under that identifier; and once every waiting
/// request was answered, the table is empty.
pub proof fn law_any_number_in_any_order<T>(
    waiting: Seq<(Seq<char>, T)>,
    ids: Seq<Seq<char>>,
    k: int,
)
    requires
        distinct_keys(waiting),
        ids.no_duplicates(),
        0 <= k < ids.len(),
    ensures
        lookup(completed_all(waiting, ids.take(k)), ids[k]) == lookup(waiting, ids[k]),
        lookup(completed_all(waiting, ids.take(k + 1)), ids[k]) is None,
        (forall|i: int| 0 <= i < waiting.len() ==> ids.contains(#[trigger] waiting[i].0))
            ==> completed_all(waiting, ids).len() == 0,
{
    lemma_completed(waiting, ids.take(k), ids[k]);
    if ids.take(k).contains(ids[k]) {
        let i = choose|i: int| 0 <= i < ids.take(k).len() && ids.take(k)[i] == ids[k];
        assert(ids[i] == ids[k]);
    }
    lemma_completed(waiting, ids.take(k + 1), ids[k]);
    assert(ids.take(k + 1)[k] == ids[k]);
    if forall|i: int| 0 <= i < waiting.len() ==> ids.contains(#[trigger] waiting[i].0) {
        let after = completed_all(waiting, ids);
        if after.len() > 0 {
            let key = after[0].0;
            lemma_completed(waiting, ids, key);
            crate::assoc::lemma_position_is(after, key, 0);
            if !ids.contains(key) {
                crate::assoc::lemma_position(waiting, key);
            }
        }
    }
}

} // verus!
