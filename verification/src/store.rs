//! The message store and the three handlers that work on it.

use std::collections::HashMap;
use vstd::prelude::*;
use crate::message::{
    Message, MessageView, StatusReply, StatusReplyView, id_exists_reply, ok_reply,
};

verus! {

/// The messages of the service, each under its id.
pub struct MessageStore {
    entries: HashMap<usize, String>,
}

impl View for MessageStore {
    type V = Map<usize, Seq<char>>;

    /// The store as a map from id to contents.
    closed spec fn view(&self) -> Map<usize, Seq<char>> {
        Map::new(
            |id: usize| self.entries@.contains_key(id),
            |id: usize| self.entries@[id]@,
        )
    }
}

/// The store after a create request: a fresh id is added, a used one
/// leaves the store as it was.
pub open spec fn store_after_create(
    before: Map<usize, Seq<char>>,
    id: usize,
    contents: Seq<char>,
) -> Map<usize, Seq<char>> {
    if before.contains_key(id) {
        before
    } else {
        before.insert(id, contents)
    }
}

/// The store after an update request: a used id gets the new contents, an
/// unknown one leaves the store as it was.
pub open spec fn store_after_update(
    before: Map<usize, Seq<char>>,
    id: usize,
    contents: Seq<char>,
) -> Map<usize, Seq<char>> {
    if before.contains_key(id) {
        before.insert(id, contents)
    } else {
        before
    }
}

/// The reply to a create request on the store `before`.
pub open spec fn create_reply(before: Map<usize, Seq<char>>, id: usize) -> StatusReplyView {
    if before.contains_key(id) {
        id_exists_reply()
    } else {
        ok_reply()
    }
}

/// The reply to an update request on the store `before`: the success body,
/// or no body at all where nothing stands under the id.
pub open spec fn update_reply(before: Map<usize, Seq<char>>, id: usize) -> Option<
    StatusReplyView,
> {
    if before.contains_key(id) {
        Some(ok_reply())
    } else {
        None
    }
}

/// The body of a read: the message under `id`, if there is one.
pub open spec fn lookup(store: Map<usize, Seq<char>>, id: usize) -> Option<MessageView> {
    if store.contains_key(id) {
        Some(MessageView { id: Some(id), contents: store[id] })
    } else {
        None
    }
}

impl MessageStore {
    /// The empty store, as it is when the service starts.
    pub fn new() -> (s: MessageStore)
        ensures
            s@ == Map::<usize, Seq<char>>::empty(),
    {
        let s = MessageStore { entries: HashMap::new() };
        assert(s@ =~= Map::<usize, Seq<char>>::empty());
        s
    }

    /// Whether a message stands under `id`.
    pub fn contains(&self, id: usize) -> (b: bool)
        ensures
            b == self@.contains_key(id),
    {
        broadcast use vstd::std_specs::hash::group_hash_axioms;
        self.entries.contains_key(&id)
    }

    /// Creates a message under `id`. Where the id is in use already nothing
    /// changes and the reply is the error body that says so.
    pub fn create(&mut self, id: usize, message: Message) -> (reply: StatusReply)
        ensures
            final(self)@ == store_after_create(old(self)@, id, message@.contents),
            reply@ == create_reply(old(self)@, id),
    {
        broadcast use vstd::std_specs::hash::group_hash_axioms;
        if self.entries.contains_key(&id) {
            StatusReply::error("ID exists. Try put.")
        } else {
            self.entries.insert(id, message.contents);
            assert(self@ =~= old(self)@.insert(id, message@.contents));
            StatusReply::ok()
        }
    }

    /// Replaces the contents under `id`. Where no message stands under the
    /// id nothing changes and there is no reply body.
    pub fn update(&mut self, id: usize, message: Message) -> (reply: Option<StatusReply>)
        ensures
            final(self)@ == store_after_update(old(self)@, id, message@.contents),
            match reply {
                Some(r) => update_reply(old(self)@, id) == Some(r@),
                None => update_reply(old(self)@, id) is None,
            },
    {
        broadcast use vstd::std_specs::hash::group_hash_axioms;
        if self.entries.contains_key(&id) {
            self.entries.insert(id, message.contents);
            assert(self@ =~= old(self)@.insert(id, message@.contents));
            Some(StatusReply::ok())
        } else {
            None
        }
    }

    /// Reads the message under `id`, with its id filled in.
    pub fn get(&self, id: usize) -> (found: Option<Message>)
        ensures
            match found {
                Some(m) => lookup(self@, id) == Some(m@),
                None => lookup(self@, id) is None,
            },
    {
        broadcast use vstd::std_specs::hash::group_hash_axioms;
        match self.entries.get(&id) {
            Some(contents) => Some(Message { id: Some(id), contents: contents.clone() }),
            None => None,
        }
    }
}

/// A write request, as the store sees it.
pub enum Write {
    Create { id: usize, contents: Seq<char> },
    Update { id: usize, contents: Seq<char> },
}

/// The store after one write.
pub open spec fn store_after(before: Map<usize, Seq<char>>, write: Write) -> Map<
    usize,
    Seq<char>,
> {
    match write {
        Write::Create { id, contents } => store_after_create(before, id, contents),
        Write::Update { id, contents } => store_after_update(before, id, contents),
    }
}

/// The store that a service started empty holds after the given writes, in
/// their order.
pub open spec fn store_after_all(writes: Seq<Write>) -> Map<usize, Seq<char>>
    decreases writes.len(),
{
    if writes.len() == 0 {
        Map::empty()
    } else {
        store_after(store_after_all(writes.drop_last()), writes.last())
    }
}

/// Creating a message under an id not in use succeeds, and a read of that id
/// then returns the contents given.
pub proof fn lemma_create_then_get(store: Map<usize, Seq<char>>, id: usize, contents: Seq<char>)
    requires
        !store.contains_key(id),
    ensures
        create_reply(store, id) == ok_reply(),
        lookup(store_after_create(store, id, contents), id) == Some(
            MessageView { id: Some(id), contents },
        ),
{
}

/// Creating a message under an id in use changes nothing and is answered
/// with the error body that names the conflict.
pub proof fn lemma_create_on_existing(
    store: Map<usize, Seq<char>>,
    id: usize,
    contents: Seq<char>,
)
    requires
        store.contains_key(id),
    ensures
        create_reply(store, id) == id_exists_reply(),
        store_after_create(store, id, contents) == store,
        lookup(store_after_create(store, id, contents), id) == lookup(store, id),
{
}

/// Updating an id that holds no message has no reply body and creates
/// nothing: a read of that id still finds nothing.
pub proof fn lemma_update_on_missing(
    store: Map<usize, Seq<char>>,
    id: usize,
    contents: Seq<char>,
)
    requires
        !store.contains_key(id),
    ensures
        update_reply(store, id) is None,
        store_after_update(store, id, contents) == store,
        lookup(store_after_update(store, id, contents), id) is None,
{
}

/// Updating an id that holds a message succeeds, and a read of that id then
/// returns the new contents, whatever the old ones were.
pub proof fn lemma_update_then_get(store: Map<usize, Seq<char>>, id: usize, contents: Seq<char>)
    requires
        store.contains_key(id),
    ensures
        update_reply(store, id) == Some(ok_reply()),
        lookup(store_after_update(store, id, contents), id) == Some(
            MessageView { id: Some(id), contents },
        ),
{
}

/// A write under one id leaves what a read of any other id returns.
pub proof fn lemma_write_leaves_other_ids(store: Map<usize, Seq<char>>, write: Write, id: usize)
    requires
        match write {
            Write::Create { id: written, .. } => written != id,
            Write::Update { id: written, .. } => written != id,
        },
    ensures
        lookup(store_after(store, write), id) == lookup(store, id),
{
}

/// An id that no write has created holds no message: a read of it finds
/// nothing, whatever else was written since the service started.
pub proof fn lemma_get_never_created(writes: Seq<Write>, id: usize)
    requires
        forall|i: int|
            0 <= i < writes.len() ==> !(#[trigger] writes[i] matches Write::Create {
                id: created,
                ..
            } && created == id),
    ensures
        lookup(store_after_all(writes), id) is None,
    decreases writes.len(),
{
    if writes.len() > 0 {
        let earlier = writes.drop_last();
        assert forall|i: int| 0 <= i < earlier.len() implies !(#[trigger] earlier[i] matches Write::Create {
            id: created,
            ..
        } && created == id) by {
            assert(earlier[i] == writes[i]);
        }
        lemma_get_never_created(earlier, id);
        assert(writes.last() == writes[writes.len() - 1]);
    }
}

} // verus!
