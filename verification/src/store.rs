use std::collections::HashMap;
use vstd::prelude::*;
use vstd::string::StrSliceExecFns;
use crate::allocator::IdAllocator;
use crate::error::MessageError;
use crate::error::is_invalid_input;
use crate::error::is_not_found;
use crate::error::is_size_exceeded;
use crate::error::is_unauthorized;
use crate::error::invalid_input_error;
use crate::error::not_found_error;
use crate::error::size_exceeded_error;
use crate::error::unauthorized_error;
use crate::message::Identity;
use crate::message::Message;
use crate::message::MessagePayload;
use crate::message::MessageView;
use crate::message::MAX_COMBINED_LEN;
use crate::message::created_view;
use crate::message::identity_eq;
use crate::message::payload_nonempty;
use crate::message::payload_valid;
use crate::message::payload_within_limit;
use crate::message::updated_view;

verus! {

broadcast use vstd::std_specs::hash::group_hash_axioms;

/// The record store: an owning mapping from identifier to record, together
/// with the allocator that issues fresh identifiers. Callers receive copies
/// of records, never references into the store.
pub struct MessageStore {
    messages: HashMap<u64, Message>,
    allocator: IdAllocator,
}

impl MessageStore {
    /// The live records, as a mapping from identifier to record content.
    pub closed spec fn records(self) -> Map<u64, MessageView> {
        Map::new(
            |k: u64| self.messages@.contains_key(k),
            |k: u64| self.messages@[k]@,
        )
    }

    /// The identifier the next successful create will be given.
    pub closed spec fn next_id(self) -> u64 {
        self.allocator.value()
    }

    /// The store's invariant: every record carries the identifier it is keyed
    /// by, and every live identifier is below the allocator's next value, so a
    /// freshly issued identifier never collides.
    pub open spec fn inv(self) -> bool {
        forall|k: u64| #[trigger] self.records().contains_key(k) ==> k < self.next_id()
            && self.records()[k].id == k
    }

    /// An empty store. Its allocator continues from the durable counter's
    /// value (0 on a fresh memory), which keeps the invariant trivially: an
    /// empty store holds no identifier at all.
    pub fn new() -> (s: Self)
        ensures
            s.inv(),
            s.records() == Map::<u64, MessageView>::empty(),
    {
        let s = MessageStore { messages: HashMap::new(), allocator: IdAllocator::new() };
        proof {
            assert(s.records() =~= Map::<u64, MessageView>::empty());
        }
        s
    }

    /// The identifier the next successful create will issue, for callers that
    /// must see that the counter has room before they create.
    pub fn peek_next_id(&self) -> (id: u64)
        ensures
            id == self.next_id(),
    {
        self.allocator.peek()
    }

    /// Checks the payload: rejects an empty field with `InvalidInput`, then a
    /// combined length over the ceiling with `SizeExceeded`.
    fn validate_payload(payload: &MessagePayload) -> (r: Result<(), MessageError>)
        ensures
            !payload_nonempty(payload@) ==> (r matches Err(e) && is_invalid_input(e)),
            payload_nonempty(payload@) && !payload_within_limit(payload@) ==> (r matches Err(e)
                && is_size_exceeded(e)),
            payload_valid(payload@) ==> r is Ok,
    {
        let t = payload.title.as_str().unicode_len();
        let b = payload.body.as_str().unicode_len();
        let a = payload.attachment_url.as_str().unicode_len();
        if t == 0 || b == 0 || a == 0 {
            Err(invalid_input_error())
        } else if t > MAX_COMBINED_LEN || b > MAX_COMBINED_LEN - t || a > MAX_COMBINED_LEN - t - b {
            Err(size_exceeded_error())
        } else {
            Ok(())
        }
    }

    /// Creates a record from the payload: validates it, draws a fresh
    /// identifier, stores the record with the caller as owner and the given
    /// timestamp as `created_at`, and returns a copy of what was stored.
    pub fn create(&mut self, payload: MessagePayload, caller: Identity, now: u64) -> (r: Result<
        Message,
        MessageError,
    >)
        requires
            old(self).inv(),
            payload_valid(payload@) ==> old(self).next_id() < u64::MAX,
        ensures
            final(self).inv(),
            !payload_nonempty(payload@) ==> ({
                &&& r matches Err(e) && is_invalid_input(e)
                &&& *final(self) == *old(self)
            }),
            payload_nonempty(payload@) && !payload_within_limit(payload@) ==> ({
                &&& r matches Err(e) && is_size_exceeded(e)
                &&& *final(self) == *old(self)
            }),
            payload_valid(payload@) ==> {
                &&& r matches Ok(m) && m@ == created_view(old(self).next_id(), caller@, payload@, now)
                &&& !old(self).records().contains_key(old(self).next_id())
                &&& final(self).records() == old(self).records().insert(
                    old(self).next_id(),
                    created_view(old(self).next_id(), caller@, payload@, now),
                )
                &&& final(self).next_id() == old(self).next_id() + 1
            },
    {
        match Self::validate_payload(&payload) {
            Err(e) => Err(e),
            Ok(()) => {
                let id = self.allocator.next();
                let message = Message::new(
                    id,
                    caller,
                    payload.title,
                    payload.body,
                    payload.attachment_url,
                    now,
                );
                let copy = message.clone();
                self.messages.insert(id, message);
                proof {
                    assert(self.records() =~= old(self).records().insert(
                        id,
                        created_view(old(self).next_id(), caller@, payload@, now),
                    ));
                }
                Ok(copy)
            },
        }
    }

    /// Returns a copy of the record with the given identifier, or `NotFound`.
    /// Reading never changes the store and carries no ownership restriction.
    pub fn get(&self, id: u64) -> (r: Result<Message, MessageError>)
        ensures
            self.records().contains_key(id) ==> (r matches Ok(m) && m@ == self.records()[id]),
            !self.records().contains_key(id) ==> (r matches Err(e) && is_not_found(e, id)),
    {
        match self.messages.get(&id) {
            Some(m) => Ok(m.clone()),
            None => Err(not_found_error(id)),
        }
    }

    /// Replaces the three text fields of the record with the given identifier
    /// wholesale and sets `updated_at` to the given timestamp, provided the
    /// record exists, the caller owns it, and the payload is valid; `id`,
    /// `owner` and `created_at` never change. Nothing is mutated on any
    /// failure path.
    pub fn update(&mut self, id: u64, payload: MessagePayload, caller: Identity, now: u64) -> (r:
        Result<Message, MessageError>)
        requires
            old(self).inv(),
        ensures
            final(self).inv(),
            final(self).next_id() == old(self).next_id(),
            !old(self).records().contains_key(id) ==> ({
                &&& r matches Err(e) && is_not_found(e, id)
                &&& *final(self) == *old(self)
            }),
            old(self).records().contains_key(id) && old(self).records()[id].owner != caller@
                ==> ({
                &&& r matches Err(e) && is_unauthorized(e)
                &&& *final(self) == *old(self)
            }),
            old(self).records().contains_key(id) && old(self).records()[id].owner == caller@
                && !payload_nonempty(payload@) ==> ({
                &&& r matches Err(e) && is_invalid_input(e)
                &&& *final(self) == *old(self)
            }),
            old(self).records().contains_key(id) && old(self).records()[id].owner == caller@
                && payload_nonempty(payload@) && !payload_within_limit(payload@) ==> ({
                &&& r matches Err(e) && is_size_exceeded(e)
                &&& *final(self) == *old(self)
            }),
            old(self).records().contains_key(id) && old(self).records()[id].owner == caller@
                && payload_valid(payload@) ==> {
                &&& r matches Ok(m) && m@ == updated_view(old(self).records()[id], payload@, now)
                &&& final(self).records() == old(self).records().insert(
                    id,
                    updated_view(old(self).records()[id], payload@, now),
                )
            },
    {
        let found = self.messages.get(&id);
        match found {
            None => Err(not_found_error(id)),
            Some(m0) => {
                if !identity_eq(&m0.owner, &caller) {
                    return Err(unauthorized_error());
                }
                match Self::validate_payload(&payload) {
                    Err(e) => Err(e),
                    Ok(()) => {
                        let owner = m0.owner.clone();
                        let created_at = m0.created_at;
                        let message = Message {
                            id,
                            owner,
                            title: payload.title,
                            body: payload.body,
                            attachment_url: payload.attachment_url,
                            created_at,
                            updated_at: Some(now),
                        };
                        let copy = message.clone();
                        self.messages.insert(id, message);
                        proof {
                            assert(self.records() =~= old(self).records().insert(
                                id,
                                updated_view(old(self).records()[id], payload@, now),
                            ));
                        }
                        Ok(copy)
                    },
                }
            },
        }
    }

    /// Permanently removes the record with the given identifier and returns
    /// it, provided it exists and the caller owns it; the ownership check
    /// precedes the removal, and nothing is mutated on any failure path.
    pub fn delete(&mut self, id: u64, caller: Identity) -> (r: Result<Message, MessageError>)
        requires
            old(self).inv(),
        ensures
            final(self).inv(),
            final(self).next_id() == old(self).next_id(),
            !old(self).records().contains_key(id) ==> ({
                &&& r matches Err(e) && is_not_found(e, id)
                &&& *final(self) == *old(self)
            }),
            old(self).records().contains_key(id) && old(self).records()[id].owner != caller@
                ==> ({
                &&& r matches Err(e) && is_unauthorized(e)
                &&& *final(self) == *old(self)
            }),
            old(self).records().contains_key(id) && old(self).records()[id].owner == caller@ ==> {
                &&& r matches Ok(m) && m@ == old(self).records()[id]
                &&& final(self).records() == old(self).records().remove(id)
            },
    {
        let found = self.messages.get(&id);
        match found {
            None => Err(not_found_error(id)),
            Some(m0) => {
                if !identity_eq(&m0.owner, &caller) {
                    return Err(unauthorized_error());
                }
                match self.messages.remove(&id) {
                    Some(removed) => {
                        proof {
                            assert(self.records() =~= old(self).records().remove(id));
                        }
                        Ok(removed)
                    },
                    None => Err(not_found_error(id)),
                }
            },
        }
    }
}

} // verus!
