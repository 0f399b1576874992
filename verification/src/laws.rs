use vstd::prelude::*;
use crate::error::MessageError;
use crate::error::is_not_found;
use crate::message::Message;
use crate::message::MessageView;
use crate::message::PayloadView;
use crate::message::updated_view;
use crate::store::MessageStore;

verus! {

/// Law: the allocator's next identifier is fresh. A store satisfying the
/// invariant holds no record keyed by `next_id`, so the identifier a
/// successful create issues is unique among all live records; and since every
/// create raises `next_id` by one, it is unique among all identifiers ever
/// issued.
pub proof fn lemma_next_id_fresh(s: MessageStore)
    requires
        s.inv(),
    ensures
        !s.records().contains_key(s.next_id()),
{
}

/// Law: two successful creates issue distinct identifiers. A create returns
/// the allocator's value and leaves the allocator strictly above it, and no
/// operation ever lowers the allocator, so the identifier of a later create,
/// however many operations lie between, is strictly larger.
pub proof fn lemma_issued_ids_increase(s0: MessageStore, s1: MessageStore, id1: u64, id2: u64)
    requires
        id1 == s0.next_id(),
        s1.next_id() >= s0.next_id() + 1,
        id2 == s1.next_id(),
    ensures
        id2 > id1,
{
}

/// Law: reading is idempotent. Any two results `get` can return for the same
/// store and identifier agree: both succeed with records of identical
/// content, or both fail with `NotFound` naming the identifier. The premises
/// are exactly the contract of `get`, which takes the store immutably, so two
/// calls without an intervening mutation see the same store.
pub proof fn lemma_get_idempotent(
    s: MessageStore,
    id: u64,
    r1: Result<Message, MessageError>,
    r2: Result<Message, MessageError>,
)
    requires
        s.records().contains_key(id) ==> (r1 matches Ok(m) && m@ == s.records()[id]),
        !s.records().contains_key(id) ==> (r1 matches Err(e) && is_not_found(e, id)),
        s.records().contains_key(id) ==> (r2 matches Ok(m) && m@ == s.records()[id]),
        !s.records().contains_key(id) ==> (r2 matches Err(e) && is_not_found(e, id)),
    ensures
        r1 is Ok <==> r2 is Ok,
        r1 matches Ok(m1) ==> (r2 matches Ok(m2) && m1@ == m2@),
        r1 matches Err(e1) ==> (r2 matches Err(e2) && is_not_found(e1, id) && is_not_found(
            e2,
            id,
        )),
{
}

/// Law: an update never changes `id`, `owner` or `created_at`; it always sets
/// `updated_at` to the given timestamp, so once the field is set it stays
/// set; and as long as the timestamps the host hands over do not decrease,
/// `updated_at` never decreases across successive updates.
pub proof fn lemma_update_preserves_identity(m: MessageView, p: PayloadView, now: u64)
    ensures
        updated_view(m, p, now).id == m.id,
        updated_view(m, p, now).owner == m.owner,
        updated_view(m, p, now).created_at == m.created_at,
        updated_view(m, p, now).updated_at == Some(now),
        updated_view(m, p, now).title == p.title,
        updated_view(m, p, now).body == p.body,
        updated_view(m, p, now).attachment_url == p.attachment_url,
        m.updated_at matches Some(t) ==> (t <= now ==> (updated_view(
            m,
            p,
            now,
        ).updated_at matches Some(t2) && t2 >= t)),
{
}

/// Law: a deleted record is gone. A successful delete leaves the store's
/// records equal to the old records with the identifier removed, so a
/// subsequent lookup of that identifier finds nothing and `get` fails with
/// `NotFound`.
pub proof fn lemma_delete_then_get(pre: MessageStore, post: MessageStore, id: u64)
    requires
        post.records() == pre.records().remove(id),
    ensures
        !post.records().contains_key(id),
{
}

} // verus!
