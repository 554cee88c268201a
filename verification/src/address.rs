//! Storage addresses and the seeds they are derived from.

use anchor_lang::prelude::Pubkey;
use vstd::prelude::*;

verus! {

/// The address of a storage slot, which is also how an identity is named.
#[derive(Clone, Copy, Debug)]
pub struct Address {
    pub bytes: [u8; 32],
}

impl View for Address {
    type V = Seq<u8>;

    open spec fn view(&self) -> Seq<u8> {
        self.bytes@
    }
}

impl Address {
    /// The address with the given bytes.
    pub fn new(bytes: [u8; 32]) -> (a: Address)
        ensures
            a.bytes == bytes,
    {
        Address { bytes }
    }

    /// The address as a byte string, the form in which it enters a seed list.
    pub fn to_vec(&self) -> (v: Vec<u8>)
        ensures
            v@ == self@,
    {
        let mut v: Vec<u8> = Vec::new();
        let mut i: usize = 0;
        while i < 32
            invariant
                i <= 32,
                v@ == self@.subrange(0, i as int),
            decreases 32 - i,
        {
            v.push(self.bytes[i]);
            i += 1;
        }
        v
    }
}

impl PartialEq for Address {
    /// Two addresses are equal where their bytes are.
    fn eq(&self, other: &Address) -> (r: bool) {
        let mut i: usize = 0;
        while i < 32
            invariant
                i <= 32,
                self@.subrange(0, i as int) == other@.subrange(0, i as int),
            decreases 32 - i,
        {
            if self.bytes[i] != other.bytes[i] {
                return false;
            }
            assert(self@.subrange(0, i + 1) == self@.subrange(0, i as int).push(self@[i as int]));
            assert(other@.subrange(0, i + 1) == other@.subrange(0, i as int).push(
                other@[i as int],
            ));
            i += 1;
        }
        assert(self@ == self@.subrange(0, 32));
        assert(other@ == other@.subrange(0, 32));
        true
    }
}

impl vstd::std_specs::cmp::PartialEqSpecImpl for Address {
    open spec fn obeys_eq_spec() -> bool {
        true
    }

    open spec fn eq_spec(&self, other: &Address) -> bool {
        self@ == other@
    }
}

impl Eq for Address {

}

/// The two kinds of record, each with its own namespace of addresses.
#[derive(Clone, Copy, Debug, PartialEq, Eq, Structural)]
pub enum Tag {
    User,
    Post,
}

/// The bytes of `user`, the first seed of every user record's address.
pub const USER_SEED: [u8; 4] = [117, 115, 101, 114];

/// The bytes of `post`, the first seed of every post record's address.
pub const POST_SEED: [u8; 4] = [112, 111, 115, 116];

/// The namespace seed of a kind of record.
pub open spec fn tag_seed(tag: Tag) -> Seq<u8> {
    match tag {
        Tag::User => seq![117u8, 115u8, 101u8, 114u8],
        Tag::Post => seq![112u8, 111u8, 115u8, 116u8],
    }
}

/// The seed list of a record: its namespace seed, then its own parts.
pub open spec fn seeds_of(tag: Tag, parts: Seq<Seq<u8>>) -> Seq<Seq<u8>> {
    seq![tag_seed(tag)] + parts
}

/// The seeds of the user record that belongs to `authority`.
pub open spec fn user_seeds(authority: Seq<u8>) -> Seq<Seq<u8>> {
    seeds_of(Tag::User, seq![authority])
}

/// The seeds of the post that `authority` created under the identifier `id`.
/// The identifier enters as a single byte, so a user's posts have at most 256
/// addresses; the counters are bytes too, and no identifier is ever cut short.
pub open spec fn post_seeds(authority: Seq<u8>, id: u8) -> Seq<Seq<u8>> {
    seeds_of(Tag::Post, seq![authority, seq![id]])
}

/// The address and bump seed that the ledger's derivation primitive finds for
/// a seed list under a program, or `None` where it finds none.
pub uninterp spec fn program_address(seeds: Seq<Seq<u8>>, program_id: Seq<u8>) -> Option<
    (Seq<u8>, u8),
>;

/// An executable derivation result as the plain value that contracts speak of.
pub open spec fn derived_view(r: Option<(Address, u8)>) -> Option<(Seq<u8>, u8)> {
    match r {
        Some((address, bump)) => Some((address@, bump)),
        None => None,
    }
}

/// Calls `Pubkey::try_find_program_address`, which `anchor_lang` hands on
/// from `solana_pubkey`. The call hashes the seeds, a candidate bump seed and
/// the program id, and returns the first candidate, counting down from 255,
/// whose hash is no point of the ed25519 curve; it returns `None` where no
/// candidate qualifies or the seed list is oversized. Nothing of this is
/// proved here. The contract claims only that the result is a function of the
/// two arguments, and gives that function the name `program_address`.
#[verifier::external_body]
fn find_program_address(seeds: &Vec<Vec<u8>>, program_id: &Address) -> (r: Option<(Address, u8)>)
    ensures
        derived_view(r) == program_address(seeds.deep_view(), program_id@),
{
    let parts: Vec<&[u8]> = seeds.iter().map(|seed| seed.as_slice()).collect();
    let program = Pubkey::new_from_array(program_id.bytes);
    match Pubkey::try_find_program_address(&parts, &program) {
        Some((key, bump)) => Some((Address { bytes: key.to_bytes() }, bump)),
        None => None,
    }
}

impl Tag {
    /// The namespace seed of this kind of record.
    pub fn seed(self) -> (v: Vec<u8>)
        ensures
            v@ == tag_seed(self),
    {
        let bytes = match self {
            Tag::User => USER_SEED,
            Tag::Post => POST_SEED,
        };
        let mut v: Vec<u8> = Vec::new();
        v.push(bytes[0]);
        v.push(bytes[1]);
        v.push(bytes[2]);
        v.push(bytes[3]);
        v
    }
}

/// Derives the address of a record from its kind and its seed parts, with the
/// bump seed that makes the address valid.
pub fn derive(program_id: &Address, tag: Tag, parts: Vec<Vec<u8>>) -> (r: Option<(Address, u8)>)
    ensures
        derived_view(r) == program_address(seeds_of(tag, parts.deep_view()), program_id@),
{
    let ghost given = parts.deep_view();
    let mut seeds: Vec<Vec<u8>> = Vec::new();
    seeds.push(tag.seed());
    let mut parts = parts;
    seeds.append(&mut parts);
    assert(seeds.deep_view() =~~= seeds_of(tag, given));
    find_program_address(&seeds, program_id)
}

/// Where the user record of `authority` lives under a program, as a plain value.
pub open spec fn user_address_of(program_id: Seq<u8>, authority: Seq<u8>) -> Option<(Seq<u8>, u8)> {
    program_address(user_seeds(authority), program_id)
}

/// Where the post that `authority` created under `id` lives, as a plain value.
pub open spec fn post_address_of(program_id: Seq<u8>, authority: Seq<u8>, id: u8) -> Option<
    (Seq<u8>, u8),
> {
    program_address(post_seeds(authority, id), program_id)
}

/// Derives the address of the user record that belongs to `authority`.
pub fn user_address(program_id: &Address, authority: &Address) -> (r: Option<(Address, u8)>)
    ensures
        derived_view(r) == user_address_of(program_id@, authority@),
{
    let mut parts: Vec<Vec<u8>> = Vec::new();
    parts.push(authority.to_vec());
    assert(parts.deep_view() =~~= seq![authority@]);
    derive(program_id, Tag::User, parts)
}

/// Derives the address of the post that `authority` creates under `id`.
pub fn post_address(program_id: &Address, authority: &Address, id: u8) -> (r: Option<
    (Address, u8),
>)
    ensures
        derived_view(r) == post_address_of(program_id@, authority@, id),
{
    let mut id_seed: Vec<u8> = Vec::new();
    id_seed.push(id);
    let mut parts: Vec<Vec<u8>> = Vec::new();
    parts.push(authority.to_vec());
    parts.push(id_seed);
    assert(parts.deep_view() =~~= seq![authority@, seq![id]]);
    derive(program_id, Tag::Post, parts)
}

} // verus!
