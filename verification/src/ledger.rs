//! An in-memory ledger: the storage slots of one program, and the two
//! requests that create records in them.

use crate::address::{derived_view, post_address, user_address, Address};
use crate::error::BlogError;
use crate::instructions::{authorize, next_counters, CreatePost, InitUser};
use crate::laws::{
    lemma_create_post_keeps_consistent, lemma_ids_below, lemma_init_user_keeps_consistent,
    lemma_post_ids_in_use, lemma_post_is_unique,
};
use crate::model::{
    create_post_step, create_post_step_at, empty_ledger, init_user_step, init_user_step_at,
    slot_refusal, LedgerView, RecordView,
};
use crate::state::{PostAccount, Signer, UserAccount, POST_ACCOUNT_SPACE, USER_ACCOUNT_SPACE};
use vstd::prelude::*;

verus! {

/// What a storage slot holds.
#[derive(Debug)]
pub enum Record {
    User(UserAccount),
    Post(PostAccount),
}

impl View for Record {
    type V = RecordView;

    open spec fn view(&self) -> RecordView {
        match self {
            Record::User(user) => RecordView::User(user@),
            Record::Post(post) => RecordView::Post(post@),
        }
    }
}

struct Slot {
    address: Address,
    record: Record,
}

/// The storage slots of one program. No request frees a slot, and no two
/// records share an address.
pub struct Ledger {
    program_id: Address,
    slots: Vec<Slot>,
    model: Ghost<Map<Seq<u8>, RecordView>>,
}

/// The bytes that the slot of a record reserves, by the record's kind.
pub open spec fn space_of(record: RecordView) -> nat {
    match record {
        RecordView::User(_) => USER_ACCOUNT_SPACE as nat,
        RecordView::Post(_) => POST_ACCOUNT_SPACE as nat,
    }
}

/// The address in a result, as a plain value.
pub open spec fn address_view(r: Result<Address, BlogError>) -> Result<Seq<u8>, BlogError> {
    match r {
        Ok(address) => Ok(address@),
        Err(e) => Err(e),
    }
}

impl View for Ledger {
    type V = LedgerView;

    closed spec fn view(&self) -> LedgerView {
        LedgerView { program_id: self.program_id@, slots: self.model@ }
    }
}

impl Ledger {
    /// The ledger is well formed: the stored slots are exactly what the view
    /// shows, each address once.
    pub closed spec fn wf(&self) -> bool {
        &&& forall|i: int|
            0 <= i < self.slots@.len() ==> {
                let slot = #[trigger] self.slots@[i];
                self.model@.contains_key(slot.address@) && self.model@[slot.address@]
                    == slot.record@
            }
        &&& forall|address: Seq<u8>| #[trigger]
            self.model@.contains_key(address) ==> exists|i: int|
                0 <= i < self.slots@.len() && (#[trigger] self.slots@[i]).address@ == address
        &&& forall|i: int, j: int|
            0 <= i < j < self.slots@.len() ==> (#[trigger] self.slots@[i]).address@
                != (#[trigger] self.slots@[j]).address@
    }

    /// A ledger for the program `program_id` with no slot occupied.
    pub fn new(program_id: Address) -> (ledger: Ledger)
        ensures
            ledger.wf(),
            ledger@ == empty_ledger(program_id@),
            ledger@.consistent(),
    {
        Ledger { program_id, slots: Vec::new(), model: Ghost(Map::empty()) }
    }

    /// The program that owns the records.
    pub fn program_id(&self) -> (id: Address)
        ensures
            id@ == self@.program_id,
    {
        self.program_id
    }

    /// Creates the profile of `authority`. The profile's address is derived
    /// from the authority alone, so a second request for the same identity
    /// finds the slot occupied and is refused. A refused request changes
    /// nothing.
    pub fn init_user(&mut self, authority: &Signer, name: String, avatar: String) -> (r: Result<
        Address,
        BlogError,
    >)
        requires
            old(self).wf(),
        ensures
            final(self).wf(),
            final(self)@ == init_user_step(old(self)@, authority@, name@, avatar@).0,
            address_view(r) == init_user_step(old(self)@, authority@, name@, avatar@).1,
            old(self)@.consistent() ==> final(self)@.consistent(),
    {
        proof {
            if self@.consistent() {
                lemma_init_user_keeps_consistent(self@, authority@, name@, avatar@);
            }
        }
        let derived = user_address(&self.program_id, &authority.key);
        self.init_user_at(derived, authority, name, avatar)
    }

    /// Creates the profile of `authority` in the slot at the address
    /// `derived`, or refuses where there is none: what `init_user` does once
    /// the address is derived.
    pub fn init_user_at(
        &mut self,
        derived: Option<(Address, u8)>,
        authority: &Signer,
        name: String,
        avatar: String,
    ) -> (r: Result<Address, BlogError>)
        requires
            old(self).wf(),
        ensures
            final(self).wf(),
            final(self)@ == init_user_step_at(
                old(self)@,
                derived_view(derived),
                authority@,
                name@,
                avatar@,
            ).0,
            address_view(r) == init_user_step_at(
                old(self)@,
                derived_view(derived),
                authority@,
                name@,
                avatar@,
            ).1,
    {
        if !authority.is_signer {
            return Err(BlogError::Authorization);
        }
        let address = match self.reserve(derived, authority) {
            Ok(address) => address,
            Err(e) => {
                return Err(e);
            },
        };
        let mut ctx = InitUser { user_account: UserAccount::blank(), authority: *authority };
        match crate::instructions::init_user(&mut ctx, name, avatar) {
            Ok(_) => {},
            Err(e) => {
                return Err(e);
            },
        }
        self.occupy(address, Record::User(ctx.user_account));
        Ok(address)
    }

    /// Creates a post under the profile at `user_key`, at the address derived
    /// from the authority and the profile's next identifier, and advances
    /// both of the profile's counters by one. A refused request changes
    /// nothing.
    pub fn create_post(
        &mut self,
        authority: &Signer,
        user_key: &Address,
        title: String,
        content: String,
    ) -> (r: Result<Address, BlogError>)
        requires
            old(self).wf(),
        ensures
            final(self).wf(),
            final(self)@ == create_post_step(
                old(self)@,
                authority@,
                user_key@,
                title@,
                content@,
            ).0,
            address_view(r) == create_post_step(
                old(self)@,
                authority@,
                user_key@,
                title@,
                content@,
            ).1,
            old(self)@.consistent() ==> final(self)@.consistent(),
    {
        proof {
            if self@.consistent() {
                lemma_create_post_keeps_consistent(
                    self@,
                    authority@,
                    user_key@,
                    title@,
                    content@,
                );
            }
        }
        let derived = match self.user(user_key) {
            Some(user) => post_address(&self.program_id, &authority.key, user.last_post_id),
            None => None,
        };
        self.create_post_at(derived, authority, user_key, title, content)
    }

    /// Creates a post under the profile at `user_key` in the slot at the
    /// address `derived`, or refuses where there is none: what `create_post`
    /// does once the address is derived.
    pub fn create_post_at(
        &mut self,
        derived: Option<(Address, u8)>,
        authority: &Signer,
        user_key: &Address,
        title: String,
        content: String,
    ) -> (r: Result<Address, BlogError>)
        requires
            old(self).wf(),
        ensures
            final(self).wf(),
            final(self)@ == create_post_step_at(
                old(self)@,
                derived_view(derived),
                authority@,
                user_key@,
                title@,
                content@,
            ).0,
            address_view(r) == create_post_step_at(
                old(self)@,
                derived_view(derived),
                authority@,
                user_key@,
                title@,
                content@,
            ).1,
    {
        match self.user(user_key) {
            Some(user) => {
                match authorize(user, authority) {
                    Ok(_) => {},
                    Err(e) => {
                        return Err(e);
                    },
                }
                match next_counters(user) {
                    Ok(_) => {},
                    Err(e) => {
                        return Err(e);
                    },
                }
            },
            None => {
                return Err(BlogError::Authorization);
            },
        }
        let address = match self.reserve(derived, authority) {
            Ok(address) => address,
            Err(e) => {
                return Err(e);
            },
        };
        let user_account = match self.vacate(user_key) {
            Record::User(user) => user,
            Record::Post(post) => {
                self.occupy(*user_key, Record::Post(post));
                return Err(BlogError::Authorization);
            },
        };
        let mut ctx = CreatePost {
            post_account: PostAccount::blank(),
            user_account,
            user_key: *user_key,
            authority: *authority,
        };
        let granted = crate::instructions::create_post(&mut ctx, title, content);
        self.occupy(*user_key, Record::User(ctx.user_account));
        match granted {
            Ok(_) => {
                self.occupy(address, Record::Post(ctx.post_account));
                assert(self@.slots =~= create_post_step_at(
                    old(self)@,
                    derived_view(derived),
                    authority@,
                    user_key@,
                    title@,
                    content@,
                ).0.slots);
                Ok(address)
            },
            Err(e) => Err(e),
        }
    }

    /// Decides whether a slot can be reserved at the address `derived` for
    /// `payer`, and hands the address out where it can.
    fn reserve(&self, derived: Option<(Address, u8)>, payer: &Signer) -> (r: Result<
        Address,
        BlogError,
    >)
        requires
            self.wf(),
        ensures
            match r {
                Ok(address) => {
                    &&& slot_refusal(self@, derived_view(derived), payer@) is None
                    &&& derived matches Some((found, _)) && found@ == address@
                },
                Err(e) => slot_refusal(self@, derived_view(derived), payer@) == Some(e),
            },
    {
        let address = match derived {
            Some((address, _)) => address,
            None => {
                return Err(BlogError::AddressDerivation);
            },
        };
        if self.find(&address).is_some() {
            return Err(BlogError::AddressCollision);
        }
        if !payer.is_funded {
            return Err(BlogError::Resource);
        }
        Ok(address)
    }

    /// Puts a record into the free slot at `address`.
    fn occupy(&mut self, address: Address, record: Record)
        requires
            old(self).wf(),
            !old(self)@.slots.contains_key(address@),
        ensures
            final(self).wf(),
            final(self)@ == (LedgerView {
                slots: old(self)@.slots.insert(address@, record@),
                ..old(self)@
            }),
    {
        self.model = Ghost(self.model@.insert(address@, record@));
        self.slots.push(Slot { address, record });
        proof {
            let before = old(self).slots@;
            assert forall|a: Seq<u8>| #[trigger] self.model@.contains_key(a) implies exists|i: int|
                0 <= i < self.slots@.len() && (#[trigger] self.slots@[i]).address@ == a by {
                if a == address@ {
                    assert(self.slots@[before.len() as int].address@ == a);
                } else {
                    let i = choose|i: int|
                        0 <= i < before.len() && (#[trigger] before[i]).address@ == a;
                    assert(self.slots@[i].address@ == a);
                }
            }
        }
    }

    /// Takes the record out of the occupied slot at `address`, for the caller
    /// to put its successor there.
    fn vacate(&mut self, address: &Address) -> (record: Record)
        requires
            old(self).wf(),
            old(self)@.slots.contains_key(address@),
        ensures
            final(self).wf(),
            record@ == old(self)@.slots[address@],
            final(self)@ == (LedgerView {
                slots: old(self)@.slots.remove(address@),
                ..old(self)@
            }),
    {
        let at = match self.find(address) {
            Some(i) => i,
            None => 0,
        };
        self.model = Ghost(self.model@.remove(address@));
        let slot = self.slots.remove(at);
        proof {
            let before = old(self).slots@;
            assert forall|i: int| 0 <= i < self.slots@.len() implies #[trigger] self.slots@[i] == (
            if i < at {
                before[i]
            } else {
                before[i + 1]
            }) by {}
            assert forall|a: Seq<u8>| #[trigger] self.model@.contains_key(a) implies exists|i: int|
                0 <= i < self.slots@.len() && (#[trigger] self.slots@[i]).address@ == a by {
                let i = choose|i: int|
                    0 <= i < before.len() && (#[trigger] before[i]).address@ == a;
                if i < at {
                    assert(self.slots@[i].address@ == a);
                } else {
                    assert(self.slots@[i - 1].address@ == a);
                }
            }
        }
        slot.record
    }

    /// Whether the slot at `address` holds a record.
    pub fn is_occupied(&self, address: &Address) -> (r: bool)
        requires
            self.wf(),
        ensures
            r == self@.slots.contains_key(address@),
    {
        self.find(address).is_some()
    }

    /// The profile in the slot at `address`, if the slot holds one.
    pub fn user(&self, address: &Address) -> (r: Option<&UserAccount>)
        requires
            self.wf(),
        ensures
            match r {
                Some(user) => self@.has_user(address@) && user@ == self@.user(address@),
                None => !self@.has_user(address@),
            },
    {
        match self.find(address) {
            Some(i) => match &self.slots[i].record {
                Record::User(user) => Some(user),
                Record::Post(_) => None,
            },
            None => None,
        }
    }

    /// The post in the slot at `address`, if the slot holds one.
    pub fn post(&self, address: &Address) -> (r: Option<&PostAccount>)
        requires
            self.wf(),
        ensures
            match r {
                Some(post) => self@.has_post(address@) && post@ == self@.post(address@),
                None => !self@.has_post(address@),
            },
    {
        match self.find(address) {
            Some(i) => match &self.slots[i].record {
                Record::Post(post) => Some(post),
                Record::User(_) => None,
            },
            None => None,
        }
    }

    /// The bytes reserved for the slot at `address`, if the slot is occupied:
    /// the budget of the kind of record that it holds.
    pub fn reserved(&self, address: &Address) -> (r: Option<usize>)
        requires
            self.wf(),
        ensures
            match r {
                Some(n) => self@.slots.contains_key(address@) && n == space_of(
                    self@.slots[address@],
                ),
                None => !self@.slots.contains_key(address@),
            },
    {
        match self.find(address) {
            Some(i) => match &self.slots[i].record {
                Record::User(_) => Some(USER_ACCOUNT_SPACE),
                Record::Post(_) => Some(POST_ACCOUNT_SPACE),
            },
            None => None,
        }
    }

    /// The identifiers of the posts that name the profile at `user_key`. In a
    /// consistent ledger none is listed twice, and there are as many as the
    /// profile's `post_count` says.
    pub fn post_ids(&self, user_key: &Address) -> (ids: Vec<u8>)
        requires
            self.wf(),
        ensures
            forall|id: u8| ids@.contains(id) <==> self@.post_ids(user_key@).contains(id),
            self@.consistent() ==> ids@.no_duplicates(),
            self@.consistent() && self@.has_user(user_key@) ==> ids@.len() == self@.user(
                user_key@,
            ).post_count,
    {
        let mut ids: Vec<u8> = Vec::new();
        let ghost mut from: Seq<int> = Seq::empty();
        let mut i: usize = 0;
        while i < self.slots.len()
            invariant
                self.wf(),
                i <= self.slots@.len(),
                from.len() == ids@.len(),
                forall|k: int|
                    0 <= k < from.len() ==> 0 <= #[trigger] from[k] < i && self.names(
                        from[k],
                        user_key@,
                        ids@[k],
                    ),
                forall|k: int, l: int| 0 <= k < l < from.len() ==> from[k] != from[l],
                forall|j: int, id: u8|
                    0 <= j < i && #[trigger] self.names(j, user_key@, id) ==> ids@.contains(id),
            decreases self.slots@.len() - i,
        {
            match &self.slots[i].record {
                Record::Post(post) => {
                    if post.user == *user_key {
                        let ghost before = ids@;
                        ids.push(post.id);
                        proof {
                            from = from.push(i as int);
                            assert forall|j: int, id: u8|
                                0 <= j < i + 1 && #[trigger] self.names(
                                    j,
                                    user_key@,
                                    id,
                                ) implies ids@.contains(id) by {
                                if j < i {
                                    let k = choose|k: int| 0 <= k < before.len() && before[k] == id;
                                    assert(ids@[k] == id);
                                } else {
                                    assert(ids@[before.len() as int] == id);
                                }
                            }
                        }
                    }
                },
                Record::User(_) => {},
            }
            i += 1;
        }
        proof {
            assert forall|id: u8| ids@.contains(id) <==> self@.post_ids(user_key@).contains(
                id,
            ) by {
                if ids@.contains(id) {
                    let k = choose|k: int| 0 <= k < ids@.len() && ids@[k] == id;
                    assert(self@.has_post(self.slots@[from[k]].address@));
                }
                if self@.post_ids(user_key@).contains(id) {
                    let address = choose|address: Seq<u8>|
                        #![trigger self@.has_post(address)]
                        self@.has_post(address) && self@.post(address).user == user_key@
                            && self@.post(address).id == id;
                    let j = choose|j: int|
                        0 <= j < self.slots@.len() && (#[trigger] self.slots@[j]).address@
                            == address;
                    assert(self.names(j, user_key@, id));
                }
            }
            if self@.consistent() {
                assert forall|k: int, l: int|
                    0 <= k < ids@.len() && 0 <= l < ids@.len() && k != l implies ids@[k]
                    != ids@[l] by {
                    let first = self.slots@[from[k]];
                    let second = self.slots@[from[l]];
                    if ids@[k] == ids@[l] {
                        lemma_post_is_unique(self@, first.address@, second.address@);
                    }
                }
                if self@.has_user(user_key@) {
                    lemma_post_ids_in_use(self@, user_key@);
                    lemma_ids_below(self@.user(user_key@).last_post_id);
                    ids@.unique_seq_to_set();
                    assert(ids@.to_set() =~= self@.post_ids(user_key@));
                }
            }
        }
        ids
    }

    /// Whether the `i`-th stored slot holds a post with the identifier `id`
    /// that names the profile at `user_key`.
    spec fn names(&self, i: int, user_key: Seq<u8>, id: u8) -> bool {
        &&& self.slots@[i].record@ is Post
        &&& self.slots@[i].record@->Post_0.user == user_key
        &&& self.slots@[i].record@->Post_0.id == id
    }

    fn find(&self, address: &Address) -> (r: Option<usize>)
        requires
            self.wf(),
        ensures
            match r {
                Some(i) => {
                    &&& i < self.slots@.len()
                    &&& self.slots@[i as int].address@ == address@
                    &&& self@.slots.contains_key(address@)
                    &&& self@.slots[address@] == self.slots@[i as int].record@
                },
                None => !self@.slots.contains_key(address@),
            },
    {
        let mut i: usize = 0;
        while i < self.slots.len()
            invariant
                self.wf(),
                i <= self.slots@.len(),
                forall|j: int| 0 <= j < i ==> (#[trigger] self.slots@[j]).address@ != address@,
            decreases self.slots@.len() - i,
        {
            if self.slots[i].address == *address {
                return Some(i);
            }
            i += 1;
        }
        None
    }
}

} // verus!
