//! What holds of every ledger, whatever requests it has seen.

use crate::address::{post_address_of, post_seeds, user_address_of, user_seeds};
use crate::error::BlogError;
use crate::model::{
    create_post_step, create_post_step_at, empty_ledger, grows_from, init_user_step,
    init_user_step_at, LedgerView,
};
use crate::state::{after_post, new_user, SignerView};
use vstd::prelude::*;
use vstd::set_lib::{lemma_int_range, lemma_map_size, set_int_range};

verus! {

/// An empty ledger is consistent.
pub proof fn lemma_empty_consistent(program_id: Seq<u8>)
    ensures
        empty_ledger(program_id).consistent(),
{
}

/// Creating a profile keeps a consistent ledger consistent, whether the
/// request is granted or refused.
pub proof fn lemma_init_user_keeps_consistent(
    s: LedgerView,
    signer: SignerView,
    name: Seq<char>,
    avatar: Seq<char>,
)
    requires
        s.consistent(),
    ensures
        init_user_step(s, signer, name, avatar).0.consistent(),
{
    let t = init_user_step(s, signer, name, avatar).0;
    if init_user_step(s, signer, name, avatar).1 is Ok {
        let fresh = user_address_of(s.program_id, signer.key).unwrap().0;
        assert forall|address: Seq<u8>| #[trigger] t.has_user(address) implies t.user_in_place(
            address,
        ) by {
            if address != fresh {
                assert(s.has_user(address));
            }
        }
        assert forall|address: Seq<u8>| #[trigger] t.has_post(address) implies t.post_in_place(
            address,
        ) by {
            assert(s.has_post(address));
        }
        assert forall|address: Seq<u8>, id: u8|
            t.has_user(address) && id < t.user(address).last_post_id implies #[trigger] t.has_post_of(
            address,
            id,
        ) by {
            assert(s.has_post_of(address, id));
        }
    }
}

/// Creating a post keeps a consistent ledger consistent, whether the request
/// is granted or refused.
pub proof fn lemma_create_post_keeps_consistent(
    s: LedgerView,
    signer: SignerView,
    user_key: Seq<u8>,
    title: Seq<char>,
    content: Seq<char>,
)
    requires
        s.consistent(),
    ensures
        create_post_step(s, signer, user_key, title, content).0.consistent(),
{
    let t = create_post_step(s, signer, user_key, title, content).0;
    if create_post_step(s, signer, user_key, title, content).1 is Ok {
        let user = s.user(user_key);
        let fresh = post_address_of(s.program_id, signer.key, user.last_post_id).unwrap().0;
        assert forall|address: Seq<u8>| #[trigger] t.has_user(address) implies t.user_in_place(
            address,
        ) by {
            assert(s.has_user(address));
        }
        assert forall|address: Seq<u8>| #[trigger] t.has_post(address) implies t.post_in_place(
            address,
        ) by {
            if address != fresh {
                assert(s.has_post(address));
            }
        }
        assert forall|address: Seq<u8>, id: u8|
            t.has_user(address) && id < t.user(address).last_post_id implies #[trigger] t.has_post_of(
            address,
            id,
        ) by {
            if address != user_key || id != user.last_post_id {
                assert(s.has_post_of(address, id));
            }
        }
    }
}

/// Creating a profile rewrites nothing: whatever address the profile is to go
/// to, and whether the request is granted or refused, every record that was
/// there is there afterwards, as it was.
pub proof fn lemma_init_user_keeps_records(
    s: LedgerView,
    derived: Option<(Seq<u8>, u8)>,
    signer: SignerView,
    name: Seq<char>,
    avatar: Seq<char>,
)
    ensures
        grows_from(s, init_user_step_at(s, derived, signer, name, avatar).0),
{
}

/// Creating a post rewrites nothing but the two counters of the profile it
/// is created under, which advance: whatever address the post is to go to,
/// and whether the request is granted or refused, every post that was there
/// is there afterwards as it was, and every profile keeps its name, avatar
/// and authority.
pub proof fn lemma_create_post_keeps_records(
    s: LedgerView,
    derived: Option<(Seq<u8>, u8)>,
    signer: SignerView,
    user_key: Seq<u8>,
    title: Seq<char>,
    content: Seq<char>,
)
    ensures
        grows_from(s, create_post_step_at(s, derived, signer, user_key, title, content).0),
{
}

/// Two requests for one address are never both granted. Where a request to
/// create a post at an address was granted, every later request to create a
/// post at the same address is refused, and changes nothing.
pub proof fn lemma_address_is_taken_once(
    s: LedgerView,
    derived: Option<(Seq<u8>, u8)>,
    signer: SignerView,
    user_key: Seq<u8>,
    title: Seq<char>,
    content: Seq<char>,
    later: SignerView,
    later_key: Seq<u8>,
    later_title: Seq<char>,
    later_content: Seq<char>,
)
    requires
        create_post_step_at(s, derived, signer, user_key, title, content).1 is Ok,
    ensures
        ({
            let t = create_post_step_at(s, derived, signer, user_key, title, content).0;
            let second = create_post_step_at(
                t,
                derived,
                later,
                later_key,
                later_title,
                later_content,
            );
            second.0 == t && second.1 is Err
        }),
{
}

/// The address of a profile depends on the program and the identity alone:
/// deriving it again for the same identity gives the same address.
pub proof fn lemma_user_address_deterministic(
    program_id: Seq<u8>,
    authority: Seq<u8>,
    again: Seq<u8>,
)
    requires
        authority == again,
    ensures
        user_address_of(program_id, authority) == user_address_of(program_id, again),
{
}

/// The address of a post depends on the program, the identity and the
/// identifier alone.
pub proof fn lemma_post_address_deterministic(
    program_id: Seq<u8>,
    authority: Seq<u8>,
    id: u8,
    again: Seq<u8>,
    again_id: u8,
)
    requires
        authority == again,
        id == again_id,
    ensures
        post_address_of(program_id, authority, id) == post_address_of(
            program_id,
            again,
            again_id,
        ),
{
}

/// Two identities never hand the same seeds to the derivation of their
/// profiles' addresses.
pub proof fn lemma_user_seeds_differ(authority: Seq<u8>, other: Seq<u8>)
    requires
        authority != other,
    ensures
        user_seeds(authority) != user_seeds(other),
{
    assert(user_seeds(other)[1] == other);
}

/// Two posts hand the same seeds to the derivation of their addresses only
/// if they have the same authority and the same identifier.
pub proof fn lemma_post_seeds_differ(authority: Seq<u8>, id: u8, other: Seq<u8>, other_id: u8)
    requires
        authority != other || id != other_id,
    ensures
        post_seeds(authority, id) != post_seeds(other, other_id),
{
    assert(post_seeds(other, other_id)[1] == other);
    assert(post_seeds(other, other_id)[2][0] == other_id);
}

/// A profile and a post never hand the same seeds to the derivation of their
/// addresses.
pub proof fn lemma_user_and_post_seeds_differ(authority: Seq<u8>, other: Seq<u8>, id: u8)
    ensures
        user_seeds(authority) != post_seeds(other, id),
{
    assert(post_seeds(other, id).len() == 3);
}

/// A profile is created once. Where a request to create the profile of an
/// identity was granted, every later signed request for the same identity is
/// refused because the address is taken, and leaves the ledger, and so the
/// profile, exactly as the first request left it.
pub proof fn lemma_single_initialization(
    s: LedgerView,
    signer: SignerView,
    name: Seq<char>,
    avatar: Seq<char>,
    again: SignerView,
    other_name: Seq<char>,
    other_avatar: Seq<char>,
)
    requires
        init_user_step(s, signer, name, avatar).1 is Ok,
        again.key == signer.key,
        again.is_signer,
    ensures
        ({
            let (t, granted) = init_user_step(s, signer, name, avatar);
            let address = granted->Ok_0;
            &&& t.has_user(address)
            &&& t.user(address) == new_user(name, avatar, signer.key)
            &&& init_user_step(t, again, other_name, other_avatar) == (
                t,
                Err::<Seq<u8>, BlogError>(BlogError::AddressCollision),
            )
        }),
{
}

/// Only a profile's authority posts under it. A request to create a post
/// under a profile whose stored authority is not the signer is refused for
/// want of authorization, and changes nothing: no counter moves and no post
/// appears.
pub proof fn lemma_ownership_enforced(
    s: LedgerView,
    signer: SignerView,
    user_key: Seq<u8>,
    title: Seq<char>,
    content: Seq<char>,
)
    requires
        s.has_user(user_key),
        s.user(user_key).authority != signer.key,
    ensures
        create_post_step(s, signer, user_key, title, content) == (
            s,
            Err::<Seq<u8>, BlogError>(BlogError::Authorization),
        ),
{
}

/// Counters fail closed. Where a profile's next identifier is at its
/// maximum, a request of the profile's authority to create a post is refused
/// for counter overflow, and changes nothing.
pub proof fn lemma_overflow_fails_closed(
    s: LedgerView,
    signer: SignerView,
    user_key: Seq<u8>,
    title: Seq<char>,
    content: Seq<char>,
)
    requires
        s.has_user(user_key),
        signer.is_signer,
        s.user(user_key).authority == signer.key,
        s.user(user_key).last_post_id == u8::MAX,
    ensures
        create_post_step(s, signer, user_key, title, content) == (
            s,
            Err::<Seq<u8>, BlogError>(BlogError::CounterOverflow),
        ),
{
}

/// In a consistent ledger the two counters of a profile agree, and the
/// identifiers of its posts are exactly those below its next identifier.
pub proof fn lemma_post_ids_in_use(s: LedgerView, user_key: Seq<u8>)
    requires
        s.consistent(),
        s.has_user(user_key),
    ensures
        s.user(user_key).post_count == s.user(user_key).last_post_id,
        s.post_ids(user_key) == Set::new(|id: u8| id < s.user(user_key).last_post_id),
{
    let user = s.user(user_key);
    assert forall|id: u8| s.post_ids(user_key).contains(id) <==> id < user.last_post_id by {
        if id < user.last_post_id {
            assert(s.has_post_of(user_key, id));
        }
    }
}

/// There are as many identifiers below `n` as `n` says.
pub proof fn lemma_ids_below(n: u8)
    ensures
        Set::new(|id: u8| id < n).finite(),
        Set::new(|id: u8| id < n).len() == n,
{
    let below = Set::new(|id: u8| id < n);
    let range = set_int_range(0, n as int);
    let narrow = |i: int| i as u8;
    lemma_int_range(0, n as int);
    assert forall|id: u8| range.map(narrow).contains(id) <==> below.contains(id) by {
        if below.contains(id) {
            assert(range.contains(id as int));
            assert(narrow(id as int) == id);
        }
    }
    assert(range.map(narrow) =~= below);
    lemma_map_size(range, below, narrow);
}

/// In a consistent ledger a profile counts its posts: as many posts name it
/// as its `post_count` says.
pub proof fn lemma_post_count(s: LedgerView, user_key: Seq<u8>)
    requires
        s.consistent(),
        s.has_user(user_key),
    ensures
        s.posts_of(user_key).finite(),
        s.posts_of(user_key).len() == s.user(user_key).post_count,
{
    let user = s.user(user_key);
    let n = user.last_post_id as int;
    let ids = set_int_range(0, n);
    let place = |i: int| post_address_of(s.program_id, user.authority, i as u8).unwrap().0;
    lemma_int_range(0, n);
    assert forall|i: int, j: int|
        ids.contains(i) && ids.contains(j) && #[trigger] place(i) == #[trigger] place(
            j,
        ) implies i == j by {
        assert(s.has_post_of(user_key, i as u8));
        assert(s.has_post_of(user_key, j as u8));
    }
    assert forall|address: Seq<u8>| ids.map(place).contains(address) <==> s.posts_of(
        user_key,
    ).contains(address) by {
        if ids.map(place).contains(address) {
            let i = choose|i: int| ids.contains(i) && address == place(i);
            assert(s.has_post_of(user_key, i as u8));
        }
        if s.posts_of(user_key).contains(address) {
            let i = s.post(address).id as int;
            assert(ids.contains(i));
        }
    }
    assert(ids.map(place) =~= s.posts_of(user_key));
    lemma_map_size(ids, s.posts_of(user_key), place);
}

/// In a consistent ledger a profile and an identifier name at most one post.
pub proof fn lemma_post_is_unique(s: LedgerView, address: Seq<u8>, other: Seq<u8>)
    requires
        s.consistent(),
        s.has_post(address),
        s.has_post(other),
        s.post(address).user == s.post(other).user,
        s.post(address).id == s.post(other).id,
    ensures
        address == other,
{
}

/// The ledger after a run of requests by `signer` to create posts under the
/// profile at `user_key`, one for each title and content in `posts`, in order.
pub open spec fn after_posts(
    s: LedgerView,
    signer: SignerView,
    user_key: Seq<u8>,
    posts: Seq<(Seq<char>, Seq<char>)>,
) -> LedgerView
    decreases posts.len(),
{
    if posts.len() == 0 {
        s
    } else {
        create_post_step(
            after_posts(s, signer, user_key, posts.drop_last()),
            signer,
            user_key,
            posts.last().0,
            posts.last().1,
        ).0
    }
}

/// Whether every request of such a run is granted.
pub open spec fn all_granted(
    s: LedgerView,
    signer: SignerView,
    user_key: Seq<u8>,
    posts: Seq<(Seq<char>, Seq<char>)>,
) -> bool
    decreases posts.len(),
{
    posts.len() == 0 || {
        &&& all_granted(s, signer, user_key, posts.drop_last())
        &&& create_post_step(
            after_posts(s, signer, user_key, posts.drop_last()),
            signer,
            user_key,
            posts.last().0,
            posts.last().1,
        ).1 is Ok
    }
}

/// Counters move in lockstep. After a run of granted requests to create
/// posts under one profile, both of its counters have advanced by the number
/// of requests, and the identifiers of its posts are exactly those below its
/// next identifier: for a profile that started with no posts, the
/// identifiers from zero up to the number of requests, that number excluded.
pub proof fn lemma_counter_lockstep(
    s: LedgerView,
    signer: SignerView,
    user_key: Seq<u8>,
    posts: Seq<(Seq<char>, Seq<char>)>,
)
    requires
        s.consistent(),
        s.has_user(user_key),
        all_granted(s, signer, user_key, posts),
    ensures
        ({
            let t = after_posts(s, signer, user_key, posts);
            &&& t.consistent()
            &&& t.has_user(user_key)
            &&& t.user(user_key).last_post_id == s.user(user_key).last_post_id + posts.len()
            &&& t.user(user_key).post_count == s.user(user_key).post_count + posts.len()
            &&& t.post_ids(user_key) == Set::new(
                |id: u8| id < s.user(user_key).last_post_id + posts.len(),
            )
        }),
    decreases posts.len(),
{
    lemma_post_ids_in_use(s, user_key);
    if posts.len() > 0 {
        let earlier = posts.drop_last();
        let m = after_posts(s, signer, user_key, earlier);
        lemma_counter_lockstep(s, signer, user_key, earlier);
        lemma_create_post_keeps_consistent(m, signer, user_key, posts.last().0, posts.last().1);
        let t = after_posts(s, signer, user_key, posts);
        lemma_post_ids_in_use(t, user_key);
        assert(t.post_ids(user_key) =~= Set::new(
            |id: u8| id < s.user(user_key).last_post_id + posts.len(),
        ));
    }
}

} // verus!
