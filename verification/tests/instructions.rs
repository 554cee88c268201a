use blog_ledger::address::Address;
use blog_ledger::instructions::{authorize, next_counters};
use blog_ledger::state::{POST_ACCOUNT_SPACE, USER_ACCOUNT_SPACE};
use blog_ledger::{
    create_post, init_user, BlogError, CreatePost, InitUser, PostAccount, Signer, UserAccount,
};

fn key(byte: u8) -> Address {
    Address::new([byte; 32])
}

fn signer(byte: u8) -> Signer {
    Signer { key: key(byte), is_signer: true, is_funded: true }
}

fn profile(authority: u8, last_post_id: u8, post_count: u8) -> UserAccount {
    UserAccount {
        name: "alice".to_string(),
        avatar: "avatar.png".to_string(),
        last_post_id,
        post_count,
        authority: key(authority),
    }
}

fn post_request(user_account: UserAccount, authority: Signer) -> CreatePost {
    CreatePost { post_account: PostAccount::blank(), user_account, user_key: key(50), authority }
}

#[test]
fn slot_sizes() {
    assert_eq!(USER_ACCOUNT_SPACE, 2320);
    assert_eq!(POST_ACCOUNT_SPACE, 2384);
}

#[test]
fn blank_records_are_empty() {
    let user = UserAccount::blank();
    assert_eq!(user.name, "");
    assert_eq!(user.avatar, "");
    assert_eq!((user.last_post_id, user.post_count), (0, 0));
    assert_eq!(user.authority, key(0));
    let post = PostAccount::blank();
    assert_eq!(post.id, 0);
    assert_eq!(post.title, "");
    assert_eq!(post.content, "");
    assert_eq!(post.user, key(0));
    assert_eq!(post.authority, key(0));
}

#[test]
fn init_user_fills_the_profile() {
    let mut ctx = InitUser { user_account: profile(9, 7, 3), authority: signer(1) };
    let r = init_user(&mut ctx, "bob".to_string(), "bob.png".to_string());
    assert_eq!(r, Ok(()));
    assert_eq!(ctx.user_account.name, "bob");
    assert_eq!(ctx.user_account.avatar, "bob.png");
    assert_eq!(ctx.user_account.last_post_id, 0);
    assert_eq!(ctx.user_account.post_count, 0);
    assert_eq!(ctx.user_account.authority, key(1));
    assert_eq!(ctx.authority.key, key(1));
}

#[test]
fn init_user_needs_a_signature() {
    let unsigned = Signer { key: key(1), is_signer: false, is_funded: true };
    let mut ctx = InitUser { user_account: profile(9, 7, 3), authority: unsigned };
    let r = init_user(&mut ctx, "bob".to_string(), "bob.png".to_string());
    assert_eq!(r, Err(BlogError::Authorization));
    assert_eq!(ctx.user_account.name, "alice");
    assert_eq!(ctx.user_account.avatar, "avatar.png");
    assert_eq!(ctx.user_account.last_post_id, 7);
    assert_eq!(ctx.user_account.post_count, 3);
    assert_eq!(ctx.user_account.authority, key(9));
}

#[test]
fn create_post_fills_the_post_and_advances_both_counters() {
    let mut ctx = post_request(profile(1, 4, 4), signer(1));
    let r = create_post(&mut ctx, "Hello".to_string(), "World".to_string());
    assert_eq!(r, Ok(()));
    assert_eq!(ctx.post_account.id, 4);
    assert_eq!(ctx.post_account.title, "Hello");
    assert_eq!(ctx.post_account.content, "World");
    assert_eq!(ctx.post_account.user, key(50));
    assert_eq!(ctx.post_account.authority, key(1));
    assert_eq!(ctx.user_account.last_post_id, 5);
    assert_eq!(ctx.user_account.post_count, 5);
    assert_eq!(ctx.user_account.name, "alice");
    assert_eq!(ctx.user_account.avatar, "avatar.png");
    assert_eq!(ctx.user_account.authority, key(1));
}

#[test]
fn create_post_counts_each_counter_on_its_own() {
    let mut ctx = post_request(profile(1, 9, 2), signer(1));
    assert_eq!(create_post(&mut ctx, "t".to_string(), "c".to_string()), Ok(()));
    assert_eq!(ctx.post_account.id, 9);
    assert_eq!(ctx.user_account.last_post_id, 10);
    assert_eq!(ctx.user_account.post_count, 3);
}

#[test]
fn create_post_needs_the_profiles_authority() {
    let mut ctx = post_request(profile(1, 4, 4), signer(2));
    let r = create_post(&mut ctx, "Hello".to_string(), "World".to_string());
    assert_eq!(r, Err(BlogError::Authorization));
    assert_eq!(ctx.user_account.last_post_id, 4);
    assert_eq!(ctx.user_account.post_count, 4);
    assert_eq!(ctx.post_account.title, "");
    assert_eq!(ctx.post_account.content, "");
    assert_eq!(ctx.post_account.authority, key(0));
}

#[test]
fn create_post_needs_a_signature() {
    let unsigned = Signer { key: key(1), is_signer: false, is_funded: true };
    let mut ctx = post_request(profile(1, 4, 4), unsigned);
    let r = create_post(&mut ctx, "Hello".to_string(), "World".to_string());
    assert_eq!(r, Err(BlogError::Authorization));
    assert_eq!(ctx.user_account.last_post_id, 4);
    assert_eq!(ctx.user_account.post_count, 4);
}

#[test]
fn create_post_fails_closed_at_the_last_identifier() {
    let mut ctx = post_request(profile(1, 255, 255), signer(1));
    let r = create_post(&mut ctx, "Hello".to_string(), "World".to_string());
    assert_eq!(r, Err(BlogError::CounterOverflow));
    assert_eq!(ctx.user_account.last_post_id, 255);
    assert_eq!(ctx.user_account.post_count, 255);
    assert_eq!(ctx.post_account.id, 0);
    assert_eq!(ctx.post_account.title, "");
}

#[test]
fn create_post_fails_closed_at_the_last_count() {
    let mut ctx = post_request(profile(1, 3, 255), signer(1));
    let r = create_post(&mut ctx, "Hello".to_string(), "World".to_string());
    assert_eq!(r, Err(BlogError::CounterOverflow));
    assert_eq!(ctx.user_account.last_post_id, 3);
    assert_eq!(ctx.user_account.post_count, 255);
}

#[test]
fn create_post_reaches_the_last_identifier() {
    let mut ctx = post_request(profile(1, 254, 254), signer(1));
    assert_eq!(create_post(&mut ctx, "t".to_string(), "c".to_string()), Ok(()));
    assert_eq!(ctx.post_account.id, 254);
    assert_eq!(ctx.user_account.last_post_id, 255);
    assert_eq!(ctx.user_account.post_count, 255);
}

#[test]
fn authorization_comes_before_overflow() {
    let mut ctx = post_request(profile(1, 255, 255), signer(2));
    let r = create_post(&mut ctx, "Hello".to_string(), "World".to_string());
    assert_eq!(r, Err(BlogError::Authorization));
}

#[test]
fn authorize_compares_signer_and_authority() {
    assert_eq!(authorize(&profile(1, 0, 0), &signer(1)), Ok(()));
    assert_eq!(authorize(&profile(1, 0, 0), &signer(2)), Err(BlogError::Authorization));
    let unsigned = Signer { key: key(1), is_signer: false, is_funded: true };
    assert_eq!(authorize(&profile(1, 0, 0), &unsigned), Err(BlogError::Authorization));
    let unfunded = Signer { key: key(1), is_signer: true, is_funded: false };
    assert_eq!(authorize(&profile(1, 0, 0), &unfunded), Ok(()));
}

#[test]
fn next_counters_add_one_or_fail() {
    assert_eq!(next_counters(&profile(1, 0, 0)), Ok((1, 1)));
    assert_eq!(next_counters(&profile(1, 254, 17)), Ok((255, 18)));
    assert_eq!(next_counters(&profile(1, 255, 17)), Err(BlogError::CounterOverflow));
    assert_eq!(next_counters(&profile(1, 17, 255)), Err(BlogError::CounterOverflow));
}
