use anchor_lang::prelude::Pubkey;
use blog_ledger::address::{post_address, user_address, Address, Tag, POST_SEED, USER_SEED};

fn program() -> Address {
    Address::new([7u8; 32])
}

fn alice() -> Address {
    Address::new([1u8; 32])
}

fn bob() -> Address {
    Address::new([2u8; 32])
}

#[test]
fn seeds_spell_user_and_post() {
    assert_eq!(&USER_SEED, b"user");
    assert_eq!(&POST_SEED, b"post");
    assert_eq!(Tag::User.seed(), b"user".to_vec());
    assert_eq!(Tag::Post.seed(), b"post".to_vec());
}

#[test]
fn address_equality_is_by_bytes() {
    let mut bytes = [1u8; 32];
    assert_eq!(Address::new(bytes), alice());
    bytes[31] = 0;
    assert_ne!(Address::new(bytes), alice());
    bytes[31] = 1;
    bytes[0] = 9;
    assert_ne!(Address::new(bytes), alice());
    assert_eq!(alice().to_vec(), vec![1u8; 32]);
}

#[test]
fn user_address_has_known_value() {
    let expected = Address::new([
        63, 109, 31, 238, 40, 233, 11, 7, 30, 241, 70, 112, 78, 165, 57, 130, 238, 60, 239, 144,
        26, 175, 224, 144, 61, 243, 72, 207, 194, 97, 46, 192,
    ]);
    assert_eq!(user_address(&program(), &alice()), Some((expected, 253)));
}

#[test]
fn post_address_has_known_value() {
    let first = Address::new([
        160, 60, 240, 208, 5, 45, 54, 210, 18, 236, 234, 177, 203, 66, 176, 13, 37, 102, 177, 71,
        212, 205, 222, 13, 214, 142, 21, 11, 158, 222, 204, 81,
    ]);
    let second = Address::new([
        234, 249, 91, 178, 191, 130, 17, 192, 71, 239, 215, 230, 130, 65, 215, 139, 5, 111, 21,
        36, 220, 64, 108, 57, 255, 2, 24, 91, 43, 98, 246, 253,
    ]);
    assert_eq!(post_address(&program(), &alice(), 0), Some((first, 255)));
    assert_eq!(post_address(&program(), &alice(), 1), Some((second, 254)));
}

#[test]
fn addresses_agree_with_the_derivation_primitive() {
    let program_key = Pubkey::new_from_array([7u8; 32]);
    let (user, user_bump) = Pubkey::find_program_address(&[b"user", &[1u8; 32]], &program_key);
    assert_eq!(
        user_address(&program(), &alice()),
        Some((Address::new(user.to_bytes()), user_bump))
    );
    let (post, post_bump) =
        Pubkey::find_program_address(&[b"post", &[1u8; 32], &[200u8]], &program_key);
    assert_eq!(
        post_address(&program(), &alice(), 200),
        Some((Address::new(post.to_bytes()), post_bump))
    );
}

#[test]
fn derive_puts_the_tag_before_the_parts() {
    let parts = vec![vec![1u8; 32]];
    assert_eq!(blog_ledger::address::derive(&program(), Tag::User, parts), user_address(&program(), &alice()));
    let parts = vec![vec![1u8; 32], vec![5u8]];
    assert_eq!(blog_ledger::address::derive(&program(), Tag::Post, parts), post_address(&program(), &alice(), 5));
}

#[test]
fn derivation_is_deterministic() {
    let first = user_address(&program(), &alice());
    let second = user_address(&program(), &alice());
    assert!(first.is_some());
    assert_eq!(first, second);
    assert_eq!(post_address(&program(), &bob(), 9), post_address(&program(), &bob(), 9));
}

#[test]
fn different_identities_have_different_addresses() {
    let a = user_address(&program(), &alice()).unwrap().0;
    let b = user_address(&program(), &bob()).unwrap().0;
    assert_ne!(a, b);
}

#[test]
fn different_tags_and_ids_have_different_addresses() {
    let user = user_address(&program(), &alice()).unwrap().0;
    let post0 = post_address(&program(), &alice(), 0).unwrap().0;
    let post1 = post_address(&program(), &alice(), 1).unwrap().0;
    let other = post_address(&program(), &bob(), 0).unwrap().0;
    assert_ne!(user, post0);
    assert_ne!(post0, post1);
    assert_ne!(post0, other);
}

#[test]
fn address_depends_on_the_program() {
    let elsewhere = Address::new([8u8; 32]);
    assert_ne!(user_address(&program(), &alice()), user_address(&elsewhere, &alice()));
}

#[test]
fn oversized_seeds_have_no_address() {
    assert_eq!(blog_ledger::address::derive(&program(), Tag::User, vec![vec![0u8; 33]]), None);
    let many: Vec<Vec<u8>> = (0..15).map(|i| vec![i as u8]).collect();
    assert_eq!(blog_ledger::address::derive(&program(), Tag::User, many), None);
    let fewer: Vec<Vec<u8>> = (0..14).map(|i| vec![i as u8]).collect();
    assert!(blog_ledger::address::derive(&program(), Tag::User, fewer).is_some());
}
