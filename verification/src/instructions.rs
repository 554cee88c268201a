//! The two operations on records: what each one checks and what it writes.

use crate::address::Address;
use crate::error::BlogError;
use crate::state::{
    after_post, new_post, new_user, PostAccount, Signer, SignerView, UserAccount, UserView,
};
use vstd::prelude::*;

verus! {

/// What `init_user` works on: the freshly reserved slot for the profile and
/// the identity that asks for it.
#[derive(Debug)]
pub struct InitUser {
    pub user_account: UserAccount,
    pub authority: Signer,
}

/// What `create_post` works on: the freshly reserved slot for the post, the
/// profile it is created under with the address it lives at, and the identity
/// that asks for it.
#[derive(Debug)]
pub struct CreatePost {
    pub post_account: PostAccount,
    pub user_account: UserAccount,
    pub user_key: Address,
    pub authority: Signer,
}

/// Why `init_user` refuses a request, if it does.
pub open spec fn init_user_refusal(authority: SignerView) -> Option<BlogError> {
    if !authority.is_signer {
        Some(BlogError::Authorization)
    } else {
        None
    }
}

/// Why `create_post` refuses a request, if it does. Authorization comes
/// first: the request must be signed, and by the profile's own authority.
/// Then both counters must have room for one more post.
pub open spec fn create_post_refusal(user: UserView, authority: SignerView) -> Option<BlogError> {
    if !authority.is_signer || user.authority != authority.key {
        Some(BlogError::Authorization)
    } else if user.last_post_id == u8::MAX || user.post_count == u8::MAX {
        Some(BlogError::CounterOverflow)
    } else {
        None
    }
}

/// Whether `authority` may create posts under the profile `user`: the request
/// must be signed, and by the identity that the profile names as its authority.
pub fn authorize(user: &UserAccount, authority: &Signer) -> (r: Result<(), BlogError>)
    ensures
        r is Ok <==> authority.is_signer && user.authority@ == authority.key@,
        r is Err ==> r == Err::<(), BlogError>(BlogError::Authorization),
{
    if !authority.is_signer || user.authority != authority.key {
        return Err(BlogError::Authorization);
    }
    Ok(())
}

/// The profile's two counters after one more post, `last_post_id` first. A
/// counter at its maximum does not wrap and does not stay: the request fails.
pub fn next_counters(user: &UserAccount) -> (r: Result<(u8, u8), BlogError>)
    ensures
        match r {
            Ok((id, count)) => id == user.last_post_id + 1 && count == user.post_count + 1,
            Err(e) => {
                &&& e == BlogError::CounterOverflow
                &&& user.last_post_id == u8::MAX || user.post_count == u8::MAX
            },
        },
{
    let id = match user.last_post_id.checked_add(1) {
        Some(n) => n,
        None => {
            return Err(BlogError::CounterOverflow);
        },
    };
    let count = match user.post_count.checked_add(1) {
        Some(n) => n,
        None => {
            return Err(BlogError::CounterOverflow);
        },
    };
    Ok((id, count))
}

/// Fills the reserved slot with the profile of the identity that asks for it:
/// the given name and avatar, both counters at zero, and that identity as the
/// authority. An unsigned request is refused and nothing is written.
pub fn init_user(ctx: &mut InitUser, name: String, avatar: String) -> (r: Result<(), BlogError>)
    ensures
        final(ctx).authority == old(ctx).authority,
        match r {
            Ok(_) => {
                &&& init_user_refusal(old(ctx).authority@) is None
                &&& final(ctx).user_account@ == new_user(name@, avatar@, old(ctx).authority.key@)
            },
            Err(e) => {
                &&& init_user_refusal(old(ctx).authority@) == Some(e)
                &&& *final(ctx) == *old(ctx)
            },
        },
{
    if !ctx.authority.is_signer {
        return Err(BlogError::Authorization);
    }
    ctx.user_account.name = name;
    ctx.user_account.avatar = avatar;
    ctx.user_account.last_post_id = 0;
    ctx.user_account.post_count = 0;
    ctx.user_account.authority = ctx.authority.key;
    Ok(())
}

/// Fills the reserved slot with a new post under the given profile and
/// advances both of the profile's counters by one. The post takes the
/// profile's next identifier, the profile's address, and the caller as its
/// authority. Where the request is refused, nothing is written.
pub fn create_post(ctx: &mut CreatePost, title: String, content: String) -> (r: Result<
    (),
    BlogError,
>)
    ensures
        final(ctx).authority == old(ctx).authority,
        final(ctx).user_key == old(ctx).user_key,
        match r {
            Ok(_) => {
                &&& create_post_refusal(old(ctx).user_account@, old(ctx).authority@) is None
                &&& final(ctx).post_account@ == new_post(
                    old(ctx).user_account@,
                    old(ctx).user_key@,
                    title@,
                    content@,
                )
                &&& final(ctx).user_account@ == after_post(old(ctx).user_account@)
            },
            Err(e) => {
                &&& create_post_refusal(old(ctx).user_account@, old(ctx).authority@) == Some(e)
                &&& *final(ctx) == *old(ctx)
            },
        },
{
    match authorize(&ctx.user_account, &ctx.authority) {
        Ok(_) => {},
        Err(e) => {
            return Err(e);
        },
    }
    let (next_id, next_count) = match next_counters(&ctx.user_account) {
        Ok(counters) => counters,
        Err(e) => {
            return Err(e);
        },
    };
    ctx.post_account.id = ctx.user_account.last_post_id;
    ctx.post_account.title = title;
    ctx.post_account.content = content;
    ctx.post_account.user = ctx.user_key;
    ctx.post_account.authority = ctx.authority.key;
    ctx.user_account.last_post_id = next_id;
    ctx.user_account.post_count = next_count;
    Ok(())
}

} // verus!
