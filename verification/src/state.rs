//! The two kinds of record and the identity that acts on them.

use crate::address::Address;
use vstd::prelude::*;

verus! {

/// The bytes that a user record's slot reserves: the worst-case lengths of
/// name and avatar with their length prefixes, and the record's marker.
pub const USER_ACCOUNT_SPACE: usize = 2312 + 8;

/// The bytes that a post record's slot reserves: the worst-case lengths of
/// title and content with their length prefixes, two addresses, and the
/// record's marker.
pub const POST_ACCOUNT_SPACE: usize = 2376 + 8;

/// A user's profile. There is one per identity.
#[derive(Debug)]
pub struct UserAccount {
    pub name: String,
    pub avatar: String,
    /// The identifier that the user's next post gets. It never decreases. It
    /// is one byte wide, as wide as the identifier's seed in a post's address,
    /// so every identifier has an address of its own. The counter fails at
    /// 255 and does not wrap: a profile has at most 255 posts.
    pub last_post_id: u8,
    /// How many posts the user has created. It is kept apart from
    /// `last_post_id`, though the two move together in every operation.
    pub post_count: u8,
    /// The only identity that may create posts under this profile.
    pub authority: Address,
}

/// A user record as a plain value.
pub struct UserView {
    pub name: Seq<char>,
    pub avatar: Seq<char>,
    pub last_post_id: u8,
    pub post_count: u8,
    pub authority: Seq<u8>,
}

impl View for UserAccount {
    type V = UserView;

    open spec fn view(&self) -> UserView {
        UserView {
            name: self.name@,
            avatar: self.avatar@,
            last_post_id: self.last_post_id,
            post_count: self.post_count,
            authority: self.authority@,
        }
    }
}

/// A post. It never changes once created.
#[derive(Debug)]
pub struct PostAccount {
    /// Unique among the posts of one user.
    pub id: u8,
    pub title: String,
    pub content: String,
    /// The address of the profile that the post belongs to.
    pub user: Address,
    /// The identity that created the post.
    pub authority: Address,
}

/// A post record as a plain value.
pub struct PostView {
    pub id: u8,
    pub title: Seq<char>,
    pub content: Seq<char>,
    pub user: Seq<u8>,
    pub authority: Seq<u8>,
}

impl View for PostAccount {
    type V = PostView;

    open spec fn view(&self) -> PostView {
        PostView {
            id: self.id,
            title: self.title@,
            content: self.content@,
            user: self.user@,
            authority: self.authority@,
        }
    }
}

/// The identity that asks for an operation, with what the hosting runtime
/// established about it before the operation runs.
#[derive(Clone, Copy, Debug)]
pub struct Signer {
    pub key: Address,
    /// Whether the request carries a valid signature of this identity.
    pub is_signer: bool,
    /// Whether this identity can pay for the slot that the operation reserves.
    pub is_funded: bool,
}

/// A signer as a plain value.
pub struct SignerView {
    pub key: Seq<u8>,
    pub is_signer: bool,
    pub is_funded: bool,
}

impl View for Signer {
    type V = SignerView;

    open spec fn view(&self) -> SignerView {
        SignerView { key: self.key@, is_signer: self.is_signer, is_funded: self.is_funded }
    }
}

/// The profile that `init_user` writes for `authority`.
pub open spec fn new_user(name: Seq<char>, avatar: Seq<char>, authority: Seq<u8>) -> UserView {
    UserView { name, avatar, last_post_id: 0, post_count: 0, authority }
}

/// The post that `create_post` writes under the profile `user`, which lives at
/// `user_key`: it takes the profile's next identifier and its authority.
pub open spec fn new_post(
    user: UserView,
    user_key: Seq<u8>,
    title: Seq<char>,
    content: Seq<char>,
) -> PostView {
    PostView { id: user.last_post_id, title, content, user: user_key, authority: user.authority }
}

/// A profile after one more post: both counters advance by one, nothing else
/// changes. Only meant where neither counter is at its maximum.
pub open spec fn after_post(user: UserView) -> UserView {
    UserView {
        last_post_id: (user.last_post_id + 1) as u8,
        post_count: (user.post_count + 1) as u8,
        ..user
    }
}

impl UserAccount {
    /// A blank profile, as a freshly reserved slot holds it.
    pub fn blank() -> (u: UserAccount)
        ensures
            u@ == new_user(Seq::empty(), Seq::empty(), Seq::new(32, |i: int| 0u8)),
    {
        let u = UserAccount {
            name: String::new(),
            avatar: String::new(),
            last_post_id: 0,
            post_count: 0,
            authority: Address::new([0u8; 32]),
        };
        assert(u@.authority =~= Seq::new(32, |i: int| 0u8));
        u
    }
}

impl PostAccount {
    /// A blank post, as a freshly reserved slot holds it.
    pub fn blank() -> (p: PostAccount)
        ensures
            p@ == (PostView {
                id: 0,
                title: Seq::empty(),
                content: Seq::empty(),
                user: Seq::new(32, |i: int| 0u8),
                authority: Seq::new(32, |i: int| 0u8),
            }),
    {
        let p = PostAccount {
            id: 0,
            title: String::new(),
            content: String::new(),
            user: Address::new([0u8; 32]),
            authority: Address::new([0u8; 32]),
        };
        assert(p@.user =~= Seq::new(32, |i: int| 0u8));
        assert(p@.authority =~= Seq::new(32, |i: int| 0u8));
        p
    }
}

} // verus!
