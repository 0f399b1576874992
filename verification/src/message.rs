use vstd::prelude::*;

verus! {

/// The combined length (in characters) of the three text fields of a payload
/// may not exceed this ceiling.
pub const MAX_COMBINED_LEN: usize = 2048;

/// An opaque caller-identity token, held as the bytes the host hands over.
pub struct Identity {
    pub bytes: Vec<u8>,
}

impl View for Identity {
    type V = Seq<u8>;

    open spec fn view(&self) -> Seq<u8> {
        self.bytes@
    }
}

impl Clone for Identity {
    fn clone(&self) -> (r: Self)
        ensures
            r@ == self@,
    {
        Identity { bytes: clone_bytes(&self.bytes) }
    }
}

/// Copies a byte vector element by element.
fn clone_bytes(v: &Vec<u8>) -> (r: Vec<u8>)
    ensures
        r@ == v@,
{
    let mut r: Vec<u8> = Vec::new();
    let mut i: usize = 0;
    while i < v.len()
        invariant
            i <= v.len(),
            r@ == v@.subrange(0, i as int),
        decreases v.len() - i,
    {
        r.push(v[i]);
        i = i + 1;
        proof {
            assert(r@ =~= v@.subrange(0, i as int));
        }
    }
    proof {
        assert(r@ =~= v@);
    }
    r
}

/// Decides whether two identities denote the same principal: true exactly
/// when their byte sequences are equal.
pub fn identity_eq(a: &Identity, b: &Identity) -> (r: bool)
    ensures
        r <==> a@ == b@,
{
    if a.bytes.len() != b.bytes.len() {
        return false;
    }
    let mut i: usize = 0;
    while i < a.bytes.len()
        invariant
            a.bytes.len() == b.bytes.len(),
            i <= a.bytes.len(),
            forall|j: int| 0 <= j < i ==> a.bytes@[j] == b.bytes@[j],
        decreases a.bytes.len() - i,
    {
        if a.bytes[i] != b.bytes[i] {
            return false;
        }
        i = i + 1;
    }
    proof {
        assert(a@ =~= b@);
    }
    true
}

/// The text fields a caller supplies when creating or updating a message.
pub struct MessagePayload {
    pub title: String,
    pub body: String,
    pub attachment_url: String,
}

/// The mathematical content of a payload: its three fields as character
/// sequences.
#[verifier::ext_equal]
pub ghost struct PayloadView {
    pub title: Seq<char>,
    pub body: Seq<char>,
    pub attachment_url: Seq<char>,
}

impl View for MessagePayload {
    type V = PayloadView;

    open spec fn view(&self) -> PayloadView {
        PayloadView { title: self.title@, body: self.body@, attachment_url: self.attachment_url@ }
    }
}

/// All three text fields are non-empty.
pub open spec fn payload_nonempty(p: PayloadView) -> bool {
    p.title.len() > 0 && p.body.len() > 0 && p.attachment_url.len() > 0
}

/// The combined length of the three text fields stays within the ceiling.
pub open spec fn payload_within_limit(p: PayloadView) -> bool {
    p.title.len() + p.body.len() + p.attachment_url.len() <= MAX_COMBINED_LEN
}

/// A payload the store accepts: non-empty fields within the size ceiling.
pub open spec fn payload_valid(p: PayloadView) -> bool {
    payload_nonempty(p) && payload_within_limit(p)
}

/// The record a successful create stores: the payload's text fields, the
/// caller as owner, `created_at` set to the given timestamp, `updated_at`
/// absent.
pub open spec fn created_view(id: u64, owner: Seq<u8>, p: PayloadView, now: u64) -> MessageView {
    MessageView {
        id,
        owner,
        title: p.title,
        body: p.body,
        attachment_url: p.attachment_url,
        created_at: now,
        updated_at: None,
    }
}

/// The record a successful update leaves behind: all three text fields
/// replaced wholesale, `updated_at` set to the given timestamp, and `id`,
/// `owner`, `created_at` unchanged.
pub open spec fn updated_view(m: MessageView, p: PayloadView, now: u64) -> MessageView {
    MessageView {
        id: m.id,
        owner: m.owner,
        title: p.title,
        body: p.body,
        attachment_url: p.attachment_url,
        created_at: m.created_at,
        updated_at: Some(now),
    }
}

/// A stored message record.
pub struct Message {
    pub id: u64,
    pub owner: Identity,
    pub title: String,
    pub body: String,
    pub attachment_url: String,
    pub created_at: u64,
    pub updated_at: Option<u64>,
}

/// The mathematical content of a record.
#[verifier::ext_equal]
pub ghost struct MessageView {
    pub id: u64,
    pub owner: Seq<u8>,
    pub title: Seq<char>,
    pub body: Seq<char>,
    pub attachment_url: Seq<char>,
    pub created_at: u64,
    pub updated_at: Option<u64>,
}

impl View for Message {
    type V = MessageView;

    open spec fn view(&self) -> MessageView {
        MessageView {
            id: self.id,
            owner: self.owner@,
            title: self.title@,
            body: self.body@,
            attachment_url: self.attachment_url@,
            created_at: self.created_at,
            updated_at: self.updated_at,
        }
    }
}

impl Message {
    /// Builds a fresh record: `created_at` is the given timestamp, and
    /// `updated_at` is absent until the first successful update.
    pub fn new(id: u64, owner: Identity, title: String, body: String, attachment_url: String, now: u64) -> (r: Self)
        ensures
            r@ == (MessageView {
                id,
                owner: owner@,
                title: title@,
                body: body@,
                attachment_url: attachment_url@,
                created_at: now,
                updated_at: None,
            }),
    {
        Message { id, owner, title, body, attachment_url, created_at: now, updated_at: None }
    }
}

impl Clone for Message {
    fn clone(&self) -> (r: Self)
        ensures
            r@ == self@,
    {
        Message {
            id: self.id,
            owner: self.owner.clone(),
            title: self.title.clone(),
            body: self.body.clone(),
            attachment_url: self.attachment_url.clone(),
            created_at: self.created_at,
            updated_at: self.updated_at,
        }
    }
}

} // verus!
