//! What a ledger holds, as a plain value, and what each request does to it.

use crate::address::{post_address_of, user_address_of};
use crate::error::BlogError;
use crate::instructions::create_post_refusal;
use crate::state::{after_post, new_post, new_user, PostView, SignerView, UserView};
use vstd::prelude::*;

verus! {

/// What a storage slot holds.
pub enum RecordView {
    User(UserView),
    Post(PostView),
}

/// A ledger as a plain value: the program that owns the records, and the
/// occupied slots by address.
pub struct LedgerView {
    pub program_id: Seq<u8>,
    pub slots: Map<Seq<u8>, RecordView>,
}

impl LedgerView {
    /// Whether the slot at `address` holds a profile.
    pub open spec fn has_user(self, address: Seq<u8>) -> bool {
        self.slots.contains_key(address) && self.slots[address] is User
    }

    /// Whether the slot at `address` holds a post.
    pub open spec fn has_post(self, address: Seq<u8>) -> bool {
        self.slots.contains_key(address) && self.slots[address] is Post
    }

    /// The profile at `address`. Only meant where there is one.
    pub open spec fn user(self, address: Seq<u8>) -> UserView {
        self.slots[address]->User_0
    }

    /// The post at `address`. Only meant where there is one.
    pub open spec fn post(self, address: Seq<u8>) -> PostView {
        self.slots[address]->Post_0
    }

    /// Whether the profile at `user_key` has a post with the identifier `id`:
    /// the slot at the address derived from the profile's authority and `id`
    /// holds a post that names the profile and carries that identifier.
    pub open spec fn has_post_of(self, user_key: Seq<u8>, id: u8) -> bool {
        match post_address_of(self.program_id, self.user(user_key).authority, id) {
            Some((address, _)) => {
                &&& self.has_post(address)
                &&& self.post(address).user == user_key
                &&& self.post(address).id == id
            },
            None => false,
        }
    }

    /// The profile at `address` sits where its authority's seeds place it, and
    /// its two counters agree.
    pub open spec fn user_in_place(self, address: Seq<u8>) -> bool {
        let user = self.user(address);
        &&& user_address_of(self.program_id, user.authority) matches Some((derived, _))
            && derived == address
        &&& user.last_post_id == user.post_count
    }

    /// The post at `address` sits where its authority's seeds and its
    /// identifier place it; the profile it names exists, has the post's
    /// authority, and has already moved past the post's identifier.
    pub open spec fn post_in_place(self, address: Seq<u8>) -> bool {
        let post = self.post(address);
        &&& post_address_of(self.program_id, post.authority, post.id) matches Some((derived, _))
            && derived == address
        &&& self.has_user(post.user)
        &&& self.user(post.user).authority == post.authority
        &&& post.id < self.user(post.user).last_post_id
    }

    /// What holds of every ledger that started empty and changed only through
    /// `init_user_step` and `create_post_step`.
    pub open spec fn consistent(self) -> bool {
        &&& forall|address: Seq<u8>| #[trigger]
            self.has_user(address) ==> self.user_in_place(address)
        &&& forall|address: Seq<u8>| #[trigger]
            self.has_post(address) ==> self.post_in_place(address)
        &&& forall|address: Seq<u8>, id: u8|
            self.has_user(address) && id < self.user(address).last_post_id
                ==> #[trigger] self.has_post_of(address, id)
    }

    /// The addresses of the posts that name the profile at `user_key`.
    pub open spec fn posts_of(self, user_key: Seq<u8>) -> Set<Seq<u8>> {
        Set::new(|address: Seq<u8>| self.has_post(address) && self.post(address).user == user_key)
    }

    /// The identifiers of the posts that name the profile at `user_key`.
    pub open spec fn post_ids(self, user_key: Seq<u8>) -> Set<u8> {
        Set::new(
            |id: u8|
                exists|address: Seq<u8>|
                    #![trigger self.has_post(address)]
                    self.has_post(address) && self.post(address).user == user_key
                        && self.post(address).id == id,
        )
    }
}

/// Whether the ledger `t` holds all that `s` holds, grown but not rewritten:
/// every post of `s` is in `t` as it was, and every profile of `s` is in `t`
/// with the name, avatar and authority it had and with counters that are no
/// smaller.
pub open spec fn grows_from(s: LedgerView, t: LedgerView) -> bool {
    &&& t.program_id == s.program_id
    &&& forall|address: Seq<u8>| #[trigger]
        s.has_post(address) ==> t.has_post(address) && t.post(address) == s.post(address)
    &&& forall|address: Seq<u8>| #[trigger]
        s.has_user(address) ==> {
            &&& t.has_user(address)
            &&& t.user(address).name == s.user(address).name
            &&& t.user(address).avatar == s.user(address).avatar
            &&& t.user(address).authority == s.user(address).authority
            &&& t.user(address).last_post_id >= s.user(address).last_post_id
            &&& t.user(address).post_count >= s.user(address).post_count
        }
}

/// The ledger of `program_id` with no slot occupied.
pub open spec fn empty_ledger(program_id: Seq<u8>) -> LedgerView {
    LedgerView { program_id, slots: Map::empty() }
}

/// Why the ledger refuses to reserve a slot at a derived address for
/// `signer`, if it does. An address must have been derived; the slot there
/// must be free; and the signer must be able to pay for it.
pub open spec fn slot_refusal(
    s: LedgerView,
    derived: Option<(Seq<u8>, u8)>,
    signer: SignerView,
) -> Option<BlogError> {
    match derived {
        None => Some(BlogError::AddressDerivation),
        Some((address, _)) => if s.slots.contains_key(address) {
            Some(BlogError::AddressCollision)
        } else if !signer.is_funded {
            Some(BlogError::Resource)
        } else {
            None
        },
    }
}

/// Why the ledger refuses to create a profile for `signer` at a derived
/// address, if it does. The request must be signed, and the slot must be
/// reserved.
pub open spec fn init_user_refusal_at(
    s: LedgerView,
    derived: Option<(Seq<u8>, u8)>,
    signer: SignerView,
) -> Option<BlogError> {
    if !signer.is_signer {
        Some(BlogError::Authorization)
    } else {
        slot_refusal(s, derived, signer)
    }
}

/// What a request to create a profile at a derived address does: the ledger
/// afterwards, and the new profile's address or the reason for the refusal.
/// A refused request leaves the ledger as it was.
pub open spec fn init_user_step_at(
    s: LedgerView,
    derived: Option<(Seq<u8>, u8)>,
    signer: SignerView,
    name: Seq<char>,
    avatar: Seq<char>,
) -> (LedgerView, Result<Seq<u8>, BlogError>) {
    match init_user_refusal_at(s, derived, signer) {
        Some(e) => (s, Err(e)),
        None => {
            let address = derived.unwrap().0;
            let user = RecordView::User(new_user(name, avatar, signer.key));
            (LedgerView { slots: s.slots.insert(address, user), ..s }, Ok(address))
        },
    }
}

/// What a request to create a profile does: `init_user_step_at`, at the
/// address derived from the signer's own seeds.
pub open spec fn init_user_step(
    s: LedgerView,
    signer: SignerView,
    name: Seq<char>,
    avatar: Seq<char>,
) -> (LedgerView, Result<Seq<u8>, BlogError>) {
    init_user_step_at(s, user_address_of(s.program_id, signer.key), signer, name, avatar)
}

/// Why the ledger refuses to create a post at a derived address for `signer`
/// under the profile at `user_key`, if it does. There must be a profile at
/// `user_key`, and the request must be signed by that profile's authority;
/// both counters must have room; and the slot must be reserved.
pub open spec fn create_post_refusal_at(
    s: LedgerView,
    derived: Option<(Seq<u8>, u8)>,
    signer: SignerView,
    user_key: Seq<u8>,
) -> Option<BlogError> {
    if !s.has_user(user_key) {
        Some(BlogError::Authorization)
    } else {
        match create_post_refusal(s.user(user_key), signer) {
            Some(e) => Some(e),
            None => slot_refusal(s, derived, signer),
        }
    }
}

/// What a request to create a post at a derived address does: the ledger
/// afterwards, and the new post's address or the reason for the refusal. A
/// refused request leaves the ledger as it was.
pub open spec fn create_post_step_at(
    s: LedgerView,
    derived: Option<(Seq<u8>, u8)>,
    signer: SignerView,
    user_key: Seq<u8>,
    title: Seq<char>,
    content: Seq<char>,
) -> (LedgerView, Result<Seq<u8>, BlogError>) {
    match create_post_refusal_at(s, derived, signer, user_key) {
        Some(e) => (s, Err(e)),
        None => {
            let user = s.user(user_key);
            let address = derived.unwrap().0;
            let post = RecordView::Post(new_post(user, user_key, title, content));
            let slots = s.slots.insert(user_key, RecordView::User(after_post(user))).insert(
                address,
                post,
            );
            (LedgerView { slots, ..s }, Ok(address))
        },
    }
}

/// Where the next post of `signer` under the profile at `user_key` goes: the
/// address derived from the signer and the profile's next identifier. Where
/// there is no such profile there is no such address.
pub open spec fn next_post_address(s: LedgerView, signer: SignerView, user_key: Seq<u8>) -> Option<
    (Seq<u8>, u8),
> {
    if s.has_user(user_key) {
        post_address_of(s.program_id, signer.key, s.user(user_key).last_post_id)
    } else {
        None
    }
}

/// What a request to create a post does: `create_post_step_at`, at the
/// address derived from the signer's seeds and the profile's next identifier.
pub open spec fn create_post_step(
    s: LedgerView,
    signer: SignerView,
    user_key: Seq<u8>,
    title: Seq<char>,
    content: Seq<char>,
) -> (LedgerView, Result<Seq<u8>, BlogError>) {
    create_post_step_at(s, next_post_address(s, signer, user_key), signer, user_key, title, content)
}

} // verus!
