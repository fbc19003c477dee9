//! The friend registry: verified public keys with local labels, keyed by
//! user id.

use vstd::prelude::*;
use vstd::utf8::encode_utf8;
use crate::bytes::{bytes_eq, to_array32};
use crate::hash::{sha256, sha256_digest};
use crate::hexcode::{hex_bytes, hex_decode, hex_encode, hex_string, is_hex};

verus! {

/// A friend: a public key, the user id that hashes it, and local labels.
#[derive(Clone, Debug)]
pub struct Friend {
    pub user_id: [u8; 32],
    pub ed25519_public: [u8; 32],
    pub nickname: String,
    pub notes: String,
    pub tags: Vec<String>,
    pub custom_display_name: Option<String>,
}

/// What a friend record holds, as plain values.
pub struct FriendView {
    pub user_id: Seq<u8>,
    pub ed25519_public: Seq<u8>,
    pub nickname: Seq<char>,
    pub notes: Seq<char>,
    pub tags: Seq<Seq<char>>,
    pub custom_display_name: Option<Seq<char>>,
}

/// The characters of each string of a list.
pub open spec fn strings_view(strings: Seq<String>) -> Seq<Seq<char>> {
    strings.map_values(|s: String| s@)
}

/// The characters of an optional string.
pub open spec fn optional_view(text: Option<String>) -> Option<Seq<char>> {
    match text {
        Some(s) => Some(s@),
        None => None,
    }
}

impl View for Friend {
    type V = FriendView;

    open spec fn view(&self) -> FriendView {
        FriendView {
            user_id: self.user_id@,
            ed25519_public: self.ed25519_public@,
            nickname: self.nickname@,
            notes: self.notes@,
            tags: strings_view(self.tags@),
            custom_display_name: optional_view(self.custom_display_name),
        }
    }
}

/// Why a registry operation was refused.
#[derive(Clone, Copy, Debug, PartialEq, Eq, Structural)]
pub enum FriendError {
    /// The user id is not the hash of the public key.
    UserIdMismatch,
    /// Another friend already has the nickname, ignoring ASCII case.
    NicknameTaken,
    /// No friend has the user id.
    NotFound,
    /// The public key is not valid hexadecimal.
    InvalidHex,
    /// The public key is not 32 bytes long.
    InvalidKeyLength,
}

/// The lowercase form of an ASCII capital; any other character unchanged.
pub open spec fn ascii_lower(c: char) -> char {
    if 'A' <= c <= 'Z' {
        ((c as int) + 32) as char
    } else {
        c
    }
}

/// Whether two nicknames are the same but for the case of ASCII letters.
pub open spec fn same_nickname(a: Seq<char>, b: Seq<char>) -> bool {
    a.map_values(|c: char| ascii_lower(c)) == b.map_values(|c: char| ascii_lower(c))
}

/// Calls `str::eq_ignore_ascii_case`, which compares two strings after
/// mapping the ASCII capitals of both to lowercase.
#[verifier::external_body]
pub(crate) fn eq_ignore_ascii_case(a: &str, b: &str) -> (same: bool)
    ensures
        same == same_nickname(a@, b@),
{
    a.eq_ignore_ascii_case(b)
}

/// A registry: friend records by user id.
pub type Registry = Map<Seq<u8>, FriendView>;

/// Whether some friend other than `exclude` has `nickname`, ignoring ASCII case.
pub open spec fn nickname_taken(
    registry: Registry,
    nickname: Seq<char>,
    exclude: Option<Seq<u8>>,
) -> bool {
    exists|id: Seq<u8>|
        #![trigger registry.dom().contains(id)]
        registry.dom().contains(id) && exclude != Some(id) && same_nickname(
            registry[id].nickname,
            nickname,
        )
}

/// Whether a record may enter a registry: its user id hashes its public key,
/// and no friend has its nickname.
pub open spec fn admissible(registry: Registry, friend: FriendView) -> bool {
    &&& friend.user_id == sha256(friend.ed25519_public)
    &&& !nickname_taken(registry, friend.nickname, None)
}

/// The record of a friend who was just added: no notes, tags or display name.
pub open spec fn new_friend(ed25519_public: Seq<u8>, nickname: Seq<char>) -> FriendView {
    FriendView {
        user_id: sha256(ed25519_public),
        ed25519_public,
        nickname,
        notes: Seq::empty(),
        tags: Seq::empty(),
        custom_display_name: None,
    }
}

/// A record after a profile update: each given field replaces the old one.
pub open spec fn with_profile(
    friend: FriendView,
    nickname: Option<Seq<char>>,
    notes: Option<Seq<char>>,
    tags: Option<Seq<Seq<char>>>,
    custom_display_name: Option<Option<Seq<char>>>,
) -> FriendView {
    FriendView {
        user_id: friend.user_id,
        ed25519_public: friend.ed25519_public,
        nickname: match nickname {
            Some(n) => n,
            None => friend.nickname,
        },
        notes: match notes {
            Some(n) => n,
            None => friend.notes,
        },
        tags: match tags {
            Some(t) => t,
            None => friend.tags,
        },
        custom_display_name: match custom_display_name {
            Some(name) => name,
            None => friend.custom_display_name,
        },
    }
}

/// The name under which a friend is shown: the custom display name where
/// there is one, else the nickname.
pub open spec fn display_name(friend: FriendView) -> Seq<char> {
    match friend.custom_display_name {
        Some(name) => name,
        None => friend.nickname,
    }
}

/// Whether every record of a list has a user id of its own.
pub open spec fn distinct_ids(records: Seq<FriendView>) -> bool {
    forall|i: int, j: int|
        0 <= i < records.len() && 0 <= j < records.len() && i != j ==> records[i].user_id
            != records[j].user_id
}

/// Whether a list holds a record with the user id.
pub open spec fn listed(records: Seq<FriendView>, user_id: Seq<u8>) -> bool {
    exists|i: int| 0 <= i < records.len() && #[trigger] records[i].user_id == user_id
}

/// The place of the record with the user id in a list that holds one.
pub open spec fn place_of(records: Seq<FriendView>, user_id: Seq<u8>) -> int {
    choose|i: int| 0 <= i < records.len() && #[trigger] records[i].user_id == user_id
}

/// The registry that a list of records with distinct user ids spells.
pub open spec fn registry_of(records: Seq<FriendView>) -> Registry {
    Map::new(|id: Seq<u8>| listed(records, id), |id: Seq<u8>| records[place_of(records, id)])
}

/// Each record of a list with distinct user ids is the registry's entry
/// for its user id.
pub proof fn lemma_registry_entry(records: Seq<FriendView>, i: int)
    requires
        distinct_ids(records),
        0 <= i < records.len(),
    ensures
        registry_of(records).dom().contains(records[i].user_id),
        registry_of(records)[records[i].user_id] == records[i],
{
}

/// Each entry of the registry is a record of the list.
pub proof fn lemma_registry_listed(records: Seq<FriendView>, user_id: Seq<u8>)
    requires
        registry_of(records).dom().contains(user_id),
    ensures
        0 <= place_of(records, user_id) < records.len(),
        records[place_of(records, user_id)].user_id == user_id,
        registry_of(records)[user_id] == records[place_of(records, user_id)],
{
}

proof fn lemma_registry_push(records: Seq<FriendView>, friend: FriendView)
    requires
        distinct_ids(records),
        !listed(records, friend.user_id),
    ensures
        distinct_ids(records.push(friend)),
        registry_of(records.push(friend)) == registry_of(records).insert(friend.user_id, friend),
{
    let after = records.push(friend);
    let want = registry_of(records).insert(friend.user_id, friend);
    assert forall|id: Seq<u8>| registry_of(after).dom().contains(id) <==> want.dom().contains(
        id,
    ) by {
        if listed(records, id) {
            let p = place_of(records, id);
            assert(after[p].user_id == id);
        }
        if id == friend.user_id {
            assert(after[records.len() as int].user_id == id);
        }
    }
    assert forall|id: Seq<u8>| registry_of(after).dom().contains(id) implies registry_of(after)[id]
        == want[id] by {
        let p = place_of(after, id);
        lemma_registry_listed(after, id);
        if p < records.len() {
            lemma_registry_entry(records, p);
        }
    }
}

proof fn lemma_registry_update(records: Seq<FriendView>, i: int, friend: FriendView)
    requires
        distinct_ids(records),
        0 <= i < records.len(),
        records[i].user_id == friend.user_id,
    ensures
        distinct_ids(records.update(i, friend)),
        registry_of(records.update(i, friend)) == registry_of(records).insert(
            friend.user_id,
            friend,
        ),
{
    let after = records.update(i, friend);
    let want = registry_of(records).insert(friend.user_id, friend);
    assert forall|id: Seq<u8>| registry_of(after).dom().contains(id) <==> want.dom().contains(
        id,
    ) by {
        if listed(records, id) {
            let p = place_of(records, id);
            assert(after[p].user_id == id);
        }
    }
    assert forall|id: Seq<u8>| registry_of(after).dom().contains(id) implies registry_of(after)[id]
        == want[id] by {
        let p = place_of(after, id);
        lemma_registry_listed(after, id);
        lemma_registry_entry(records, p);
    }
}

proof fn lemma_registry_remove(records: Seq<FriendView>, i: int)
    requires
        distinct_ids(records),
        0 <= i < records.len(),
    ensures
        distinct_ids(records.remove(i)),
        registry_of(records.remove(i)) == registry_of(records).remove(records[i].user_id),
{
    let after = records.remove(i);
    let gone = records[i].user_id;
    let want = registry_of(records).remove(gone);
    assert forall|id: Seq<u8>| registry_of(after).dom().contains(id) <==> want.dom().contains(
        id,
    ) by {
        if listed(records, id) && id != gone {
            let p = place_of(records, id);
            let q = if p < i { p } else { p - 1 };
            assert(after[q] == records[p]);
        }
    }
    assert forall|id: Seq<u8>| registry_of(after).dom().contains(id) implies registry_of(after)[id]
        == want[id] by {
        let p = place_of(after, id);
        lemma_registry_listed(after, id);
        let p0 = if p < i { p } else { p + 1 };
        lemma_registry_entry(records, p0);
    }
}

/// Whether the records keep the registry's rules: a user id of its own for
/// each, bound to the public key by the hash, and no two nicknames that
/// differ only in the case of ASCII letters.
pub open spec fn records_valid(records: Seq<FriendView>) -> bool {
    &&& distinct_ids(records)
    &&& forall|i: int|
        0 <= i < records.len() ==> (#[trigger] records[i]).user_id == sha256(
            records[i].ed25519_public,
        )
    &&& forall|i: int, j: int|
        0 <= i < records.len() && 0 <= j < records.len() && i != j ==> !same_nickname(
            (#[trigger] records[i]).nickname,
            (#[trigger] records[j]).nickname,
        )
}

proof fn lemma_taken_by_place(
    records: Seq<FriendView>,
    nickname: Seq<char>,
    exclude: Option<Seq<u8>>,
)
    requires
        distinct_ids(records),
    ensures
        nickname_taken(registry_of(records), nickname, exclude) <==> exists|i: int|
            0 <= i < records.len() && exclude != Some(records[i].user_id) && same_nickname(
                (#[trigger] records[i]).nickname,
                nickname,
            ),
{
    let registry = registry_of(records);
    if nickname_taken(registry, nickname, exclude) {
        let id = choose|id: Seq<u8>|
            #![trigger registry.dom().contains(id)]
            registry.dom().contains(id) && exclude != Some(id) && same_nickname(
                registry[id].nickname,
                nickname,
            );
        lemma_registry_listed(records, id);
    }
    if exists|i: int|
        0 <= i < records.len() && exclude != Some(records[i].user_id) && same_nickname(
            (#[trigger] records[i]).nickname,
            nickname,
        ) {
        let i = choose|i: int|
            0 <= i < records.len() && exclude != Some(records[i].user_id) && same_nickname(
                (#[trigger] records[i]).nickname,
                nickname,
            );
        lemma_registry_entry(records, i);
    }
}

/// The registry in memory.
pub struct FriendsStorage {
    friends: Vec<Friend>,
}

impl FriendsStorage {
    #[verifier::type_invariant]
    spec fn well_formed(&self) -> bool {
        records_valid(self.records())
    }

    /// The records in the order in which they are listed. The order carries
    /// no meaning.
    pub closed spec fn records(&self) -> Seq<FriendView> {
        self.friends@.map_values(|f: Friend| f@)
    }

    /// The registry: each friend under its user id.
    pub open spec fn view(&self) -> Registry {
        registry_of(self.records())
    }

    /// An empty registry.
    pub fn new() -> (storage: Self)
        ensures
            storage@ == Map::<Seq<u8>, FriendView>::empty(),
            storage.records().len() == 0,
    {
        let storage = FriendsStorage { friends: Vec::new() };
        storage
    }

    /// Moves the list out, leaving the registry empty until it is put back.
    fn take_friends(&mut self) -> (friends: Vec<Friend>)
        ensures
            friends@.map_values(|f: Friend| f@) == old(self).records(),
            final(self).records().len() == 0,
    {
        let mut friends: Vec<Friend> = Vec::new();
        core::mem::swap(&mut self.friends, &mut friends);
        friends
    }

    /// The place of the friend with the user id in the list, if there is one.
    fn position(&self, user_id: &[u8; 32]) -> (place: Option<usize>)
        ensures
            place matches Some(i) ==> i < self.records().len() && self.records()[i as int].user_id
                == user_id@,
            place is None ==> !listed(self.records(), user_id@),
    {
        let n = self.friends.len();
        let mut i: usize = 0;
        while i < n
            invariant
                n == self.friends@.len(),
                i <= n,
                forall|j: int| 0 <= j < i ==> self.records()[j].user_id != user_id@,
            decreases n - i,
        {
            if bytes_eq(self.friends[i].user_id.as_slice(), user_id.as_slice()) {
                return Some(i);
            }
            i += 1;
        }
        None
    }

    /// Whether a friend other than `exclude_user_id` has the nickname,
    /// ignoring the case of ASCII letters.
    pub fn is_nickname_taken(&self, nickname: &str, exclude_user_id: Option<&[u8; 32]>) -> (taken:
        bool)
        ensures
            taken == nickname_taken(
                self@,
                nickname@,
                match exclude_user_id {
                    Some(id) => Some(id@),
                    None => None,
                },
            ),
    {
        let ghost exclude: Option<Seq<u8>> = match exclude_user_id {
            Some(id) => Some(id@),
            None => None,
        };
        proof {
            use_type_invariant(self);
        }
        let n = self.friends.len();
        let mut i: usize = 0;
        while i < n
            invariant
                n == self.friends@.len(),
                i <= n,
                exclude == match exclude_user_id {
                    Some(id) => Some(id@),
                    None => None,
                },
                distinct_ids(self.records()),
                forall|j: int|
                    0 <= j < i ==> !(exclude != Some(self.records()[j].user_id) && same_nickname(
                        (#[trigger] self.records()[j]).nickname,
                        nickname@,
                    )),
            decreases n - i,
        {
            let friend = &self.friends[i];
            let skipped = match exclude_user_id {
                Some(id) => bytes_eq(id.as_slice(), friend.user_id.as_slice()),
                None => false,
            };
            if !skipped && eq_ignore_ascii_case(friend.nickname.as_str(), nickname) {
                proof {
                    lemma_taken_by_place(self.records(), nickname@, exclude);
                    assert(exclude != Some(self.records()[i as int].user_id) && same_nickname(
                        self.records()[i as int].nickname,
                        nickname@,
                    ));
                }
                return true;
            }
            i += 1;
        }
        proof {
            lemma_taken_by_place(self.records(), nickname@, exclude);
        }
        false
    }

    /// Adds a record, replacing the one with the same user id if there is one.
    ///
    /// The record is refused where its user id is not the hash of its public
    /// key, and else where any friend already has its nickname.
    pub fn add_friend(&mut self, friend: Friend) -> (added: Result<(), FriendError>)
        ensures
            added is Ok <==> admissible(old(self)@, friend@),
            added is Ok ==> final(self)@ == old(self)@.insert(friend@.user_id, friend@),
            added is Err ==> final(self)@ == old(self)@,
            added == Err::<(), FriendError>(FriendError::UserIdMismatch) <==> friend@.user_id
                != sha256(friend@.ed25519_public),
            added matches Err(e) ==> e == FriendError::UserIdMismatch || e
                == FriendError::NicknameTaken,
    {
        proof {
            use_type_invariant(&*self);
        }
        let computed = sha256_digest(friend.ed25519_public.as_slice());
        if !bytes_eq(computed.as_slice(), friend.user_id.as_slice()) {
            return Err(FriendError::UserIdMismatch);
        }
        if self.is_nickname_taken(friend.nickname.as_str(), None) {
            return Err(FriendError::NicknameTaken);
        }
        proof {
            lemma_taken_by_place(self.records(), friend@.nickname, None);
        }
        let place = self.position(&friend.user_id);
        let ghost before = self.records();
        let mut friends = self.take_friends();
        match place {
            Some(i) => {
                proof {
                    lemma_registry_update(before, i as int, friend@);
                    assert(friends@.update(i as int, friend).map_values(|f: Friend| f@)
                        =~= before.update(i as int, friend@));
                }
                friends[i] = friend;
            },
            None => {
                proof {
                    lemma_registry_push(before, friend@);
                    assert(friends@.push(friend).map_values(|f: Friend| f@) =~= before.push(
                        friend@,
                    ));
                }
                friends.push(friend);
            },
        }
        self.friends = friends;
        Ok(())
    }

    /// Removes the friend with the user id; says whether there was one.
    pub fn remove_friend(&mut self, user_id: &[u8; 32]) -> (removed: bool)
        ensures
            removed == old(self)@.dom().contains(user_id@),
            final(self)@ == old(self)@.remove(user_id@),
    {
        proof {
            use_type_invariant(&*self);
        }
        match self.position(user_id) {
            Some(i) => {
                let ghost before = self.records();
                let mut friends = self.take_friends();
                proof {
                    lemma_registry_remove(before, i as int);
                    lemma_registry_entry(before, i as int);
                    assert(friends@.remove(i as int).map_values(|f: Friend| f@) =~= before.remove(
                        i as int,
                    ));
                }
                let _ = friends.remove(i);
                self.friends = friends;
                true
            },
            None => {
                false
            },
        }
    }

    /// The friend with the user id, if there is one.
    pub fn get_friend(&self, user_id: &[u8; 32]) -> (found: Option<&Friend>)
        ensures
            found is Some <==> self@.dom().contains(user_id@),
            found matches Some(friend) ==> friend@ == self@[user_id@],
            records_valid(self.records()),
    {
        proof {
            use_type_invariant(self);
        }
        match self.position(user_id) {
            Some(i) => {
                proof {
                    lemma_registry_entry(self.records(), i as int);
                }
                Some(&self.friends[i])
            },
            None => None,
        }
    }

    /// All friends, each once.
    pub fn get_all_friends(&self) -> (all: Vec<&Friend>)
        ensures
            all@.len() == self.records().len(),
            forall|i: int| 0 <= i < all@.len() ==> (#[trigger] all@[i])@ == self.records()[i],
            records_valid(self.records()),
    {
        proof {
            use_type_invariant(self);
        }
        let mut all: Vec<&Friend> = Vec::new();
        let n = self.friends.len();
        let mut i: usize = 0;
        while i < n
            invariant
                n == self.friends@.len(),
                i <= n,
                all@.len() == i,
                forall|j: int| 0 <= j < i ==> (#[trigger] all@[j])@ == self.records()[j],
            decreases n - i,
        {
            all.push(&self.friends[i]);
            i += 1;
        }
        all
    }

    /// Gives a friend a new nickname.
    ///
    /// The nickname is refused where another friend has it; the friend's own
    /// nickname does not count. Otherwise the friend must exist.
    pub fn update_nickname(&mut self, user_id: &[u8; 32], nickname: String) -> (updated: Result<
        (),
        FriendError,
    >)
        ensures
            updated == Err::<(), FriendError>(FriendError::NicknameTaken) <==> nickname_taken(
                old(self)@,
                nickname@,
                Some(user_id@),
            ),
            updated == Err::<(), FriendError>(FriendError::NotFound) <==> !nickname_taken(
                old(self)@,
                nickname@,
                Some(user_id@),
            ) && !old(self)@.dom().contains(user_id@),
            updated is Ok <==> old(self)@.dom().contains(user_id@) && !nickname_taken(
                old(self)@,
                nickname@,
                Some(user_id@),
            ),
            updated is Ok ==> final(self)@ == old(self)@.insert(
                user_id@,
                with_profile(old(self)@[user_id@], Some(nickname@), None, None, None),
            ),
            updated is Err ==> final(self)@ == old(self)@,
    {
        self.update_profile(user_id, Some(nickname), None, None, None)
    }

    /// Updates the labels of a friend: each given field replaces the old one.
    ///
    /// A new nickname is refused where another friend has it; the friend's
    /// own nickname does not count. Otherwise the friend must exist.
    pub fn update_profile(
        &mut self,
        user_id: &[u8; 32],
        nickname: Option<String>,
        notes: Option<String>,
        tags: Option<Vec<String>>,
        custom_display_name: Option<Option<String>>,
    ) -> (updated: Result<(), FriendError>)
        ensures
            updated == Err::<(), FriendError>(FriendError::NicknameTaken) <==> (nickname
                matches Some(n) && nickname_taken(old(self)@, n@, Some(user_id@))),
            updated == Err::<(), FriendError>(FriendError::NotFound) <==> !(nickname matches Some(n)
                && nickname_taken(old(self)@, n@, Some(user_id@))) && !old(self)@.dom().contains(
                user_id@,
            ),
            updated is Ok <==> !(nickname matches Some(n) && nickname_taken(
                old(self)@,
                n@,
                Some(user_id@),
            )) && old(self)@.dom().contains(user_id@),
            updated is Ok ==> final(self)@ == old(self)@.insert(
                user_id@,
                with_profile(
                    old(self)@[user_id@],
                    optional_view(nickname),
                    optional_view(notes),
                    optional_strings_view(tags),
                    nested_optional_view(custom_display_name),
                ),
            ),
            updated is Err ==> final(self)@ == old(self)@,
    {
        proof {
            use_type_invariant(&*self);
        }
        match &nickname {
            Some(n) => {
                if self.is_nickname_taken(n.as_str(), Some(user_id)) {
                    return Err(FriendError::NicknameTaken);
                }
                proof {
                    lemma_taken_by_place(self.records(), n@, Some(user_id@));
                }
            },
            None => {},
        }
        match self.position(user_id) {
            Some(i) => {
                let ghost before = self.records();
                let mut friends = self.take_friends();
                let old_friend = friends.remove(i);
                let updated_friend = Friend {
                    user_id: old_friend.user_id,
                    ed25519_public: old_friend.ed25519_public,
                    nickname: match nickname {
                        Some(n) => n,
                        None => old_friend.nickname,
                    },
                    notes: match notes {
                        Some(n) => n,
                        None => old_friend.notes,
                    },
                    tags: match tags {
                        Some(t) => t,
                        None => old_friend.tags,
                    },
                    custom_display_name: match custom_display_name {
                        Some(name) => name,
                        None => old_friend.custom_display_name,
                    },
                };
                proof {
                    lemma_registry_update(before, i as int, updated_friend@);
                    lemma_registry_entry(before, i as int);
                    assert(friends@.insert(i as int, updated_friend).map_values(|f: Friend| f@)
                        =~= before.update(i as int, updated_friend@));
                }
                friends.insert(i, updated_friend);
                self.friends = friends;
                Ok(())
            },
            None => Err(FriendError::NotFound),
        }
    }
}

/// The characters of each string of an optional list.
pub open spec fn optional_strings_view(strings: Option<Vec<String>>) -> Option<Seq<Seq<char>>> {
    match strings {
        Some(list) => Some(strings_view(list@)),
        None => None,
    }
}

/// The characters of an optional string that may itself be given or not.
pub open spec fn nested_optional_view(text: Option<Option<String>>) -> Option<Option<Seq<char>>> {
    match text {
        Some(inner) => Some(optional_view(inner)),
        None => None,
    }
}

/// Whether a registry keeps its rules: each friend stands under its own
/// user id, which hashes its public key, and no two friends have nicknames
/// that differ only in the case of ASCII letters.
pub open spec fn registry_valid(registry: Registry) -> bool {
    &&& forall|id: Seq<u8>| #[trigger]
        registry.dom().contains(id) ==> registry[id].user_id == id && id == sha256(
            registry[id].ed25519_public,
        )
    &&& forall|a: Seq<u8>, b: Seq<u8>|
        #![trigger registry.dom().contains(a), registry.dom().contains(b)]
        registry.dom().contains(a) && registry.dom().contains(b) && a != b ==> !same_nickname(
            registry[a].nickname,
            registry[b].nickname,
        )
}

/// The registry of valid records is valid.
pub proof fn lemma_registry_valid(records: Seq<FriendView>)
    requires
        records_valid(records),
    ensures
        registry_valid(registry_of(records)),
{
    let registry = registry_of(records);
    assert forall|id: Seq<u8>| #[trigger] registry.dom().contains(id) implies registry[id].user_id
        == id && id == sha256(registry[id].ed25519_public) by {
        lemma_registry_listed(records, id);
    }
    assert forall|a: Seq<u8>, b: Seq<u8>|
        #![trigger registry.dom().contains(a), registry.dom().contains(b)]
        registry.dom().contains(a) && registry.dom().contains(b) && a != b implies !same_nickname(
        registry[a].nickname,
        registry[b].nickname,
    ) by {
        lemma_registry_listed(records, a);
        lemma_registry_listed(records, b);
    }
}

/// A friend's own nickname never stands in the way of its own update: in a
/// valid registry, a nickname that matches the friend's current one, in any
/// case of ASCII letters, is not taken once the friend itself is left out.
pub proof fn lemma_own_nickname_not_taken(
    registry: Registry,
    user_id: Seq<u8>,
    nickname: Seq<char>,
)
    requires
        registry_valid(registry),
        registry.dom().contains(user_id),
        same_nickname(registry[user_id].nickname, nickname),
    ensures
        !nickname_taken(registry, nickname, Some(user_id)),
{
    if nickname_taken(registry, nickname, Some(user_id)) {
        let other = choose|id: Seq<u8>|
            #![trigger registry.dom().contains(id)]
            registry.dom().contains(id) && Some(user_id) != Some(id) && same_nickname(
                registry[id].nickname,
                nickname,
            );
    }
}

/// A record whose nickname matches that of a friend in the registry, in any
/// case of ASCII letters, is not admissible.
pub proof fn lemma_nickname_collision_refused(
    registry: Registry,
    friend: FriendView,
    holder: Seq<u8>,
)
    requires
        registry.dom().contains(holder),
        same_nickname(registry[holder].nickname, friend.nickname),
    ensures
        !admissible(registry, friend),
{
}

/// The registry that adding the records one after another builds, or
/// `None` where one of them is refused.
pub open spec fn restored(friends: Seq<FriendView>) -> Option<Registry>
    decreases friends.len(),
{
    if friends.len() == 0 {
        Some(Map::empty())
    } else {
        match restored(friends.drop_last()) {
            Some(registry) => if admissible(registry, friends.last()) {
                Some(registry.insert(friends.last().user_id, friends.last()))
            } else {
                None
            },
            None => None,
        }
    }
}

/// The friend registry of this device.
pub struct FriendManager {
    storage: FriendsStorage,
}

impl FriendManager {
    /// The registry: each friend under its user id.
    pub closed spec fn view(&self) -> Registry {
        self.storage@
    }

    /// The records in the order in which they are listed. The order carries
    /// no meaning.
    pub closed spec fn records(&self) -> Seq<FriendView> {
        self.storage.records()
    }

    /// A registry without friends.
    pub fn new() -> (manager: Self)
        ensures
            manager@ == Map::<Seq<u8>, FriendView>::empty(),
    {
        FriendManager { storage: FriendsStorage::new() }
    }

    /// Rebuilds a registry from records that were kept, adding them one
    /// after another. A record that breaks the registry's rules is refused
    /// and no registry is built.
    pub fn from_friends(friends: Vec<Friend>) -> (rebuilt: Result<Self, FriendError>)
        ensures
            rebuilt is Ok <==> restored(friends@.map_values(|f: Friend| f@)) is Some,
            rebuilt matches Ok(manager) ==> Some(manager@) == restored(
                friends@.map_values(|f: Friend| f@),
            ),
            rebuilt matches Err(e) ==> e == FriendError::UserIdMismatch || e
                == FriendError::NicknameTaken,
    {
        let ghost all = friends@.map_values(|f: Friend| f@);
        let mut manager = FriendManager::new();
        let mut rest = friends;
        let mut done: usize = 0;
        let total = rest.len();
        while rest.len() > 0
            invariant
                done + rest@.len() == total,
                total == all.len(),
                all == friends@.map_values(|f: Friend| f@),
                rest@.map_values(|f: Friend| f@) == all.subrange(done as int, total as int),
                Some(manager@) == restored(all.subrange(0, done as int)),
            decreases rest@.len(),
        {
            let ghost before = rest@;
            let friend = rest.remove(0);
            proof {
                let views = before.map_values(|f: Friend| f@);
                let tail = all.subrange(done as int, total as int);
                assert(views[0] == friend@);
                let prefix = all.subrange(0, done as int + 1);
                assert(prefix.drop_last() =~= all.subrange(0, done as int));
                let after = rest@.map_values(|f: Friend| f@);
                assert forall|k: int| 0 <= k < rest@.len() implies #[trigger] after[k]
                    == all.subrange(done as int + 1, total as int)[k] by {
                    assert(views[k + 1] == tail[k + 1]);
                }
            }
            match manager.storage.add_friend(friend) {
                Ok(()) => {},
                Err(e) => {
                    proof {
                        lemma_restored_stays_none(all, done as int + 1);
                    }
                    return Err(e);
                },
            }
            done += 1;
        }
        assert(all.subrange(0, done as int) =~= all);
        Ok(manager)
    }

    /// Adds the friend with the public key under the nickname, with no
    /// notes, tags or display name, and returns the friend's user id: the
    /// hash of the key. A record with that user id is replaced. The call
    /// fails where any friend already has the nickname.
    pub fn add_friend(&mut self, ed25519_public: [u8; 32], nickname: String) -> (added: Result<
        [u8; 32],
        FriendError,
    >)
        ensures
            added is Ok <==> !nickname_taken(old(self)@, nickname@, None),
            added matches Ok(user_id) ==> {
                &&& user_id@ == sha256(ed25519_public@)
                &&& final(self)@ == old(self)@.insert(
                    user_id@,
                    new_friend(ed25519_public@, nickname@),
                )
            },
            added matches Err(e) ==> e == FriendError::NicknameTaken && final(self)@ == old(self)@,
    {
        let user_id = sha256_digest(ed25519_public.as_slice());
        let friend = Friend {
            user_id,
            ed25519_public,
            nickname,
            notes: String::new(),
            tags: Vec::new(),
            custom_display_name: None,
        };
        assert(friend@.tags =~= Seq::<Seq<char>>::empty());
        match self.storage.add_friend(friend) {
            Ok(()) => Ok(user_id),
            Err(e) => Err(e),
        }
    }

    /// Removes the friend with the user id; says whether there was one.
    pub fn remove_friend(&mut self, user_id: &[u8; 32]) -> (removed: bool)
        ensures
            removed == old(self)@.dom().contains(user_id@),
            final(self)@ == old(self)@.remove(user_id@),
    {
        self.storage.remove_friend(user_id)
    }

    /// The friend with the user id, if there is one.
    pub fn get_friend(&self, user_id: &[u8; 32]) -> (found: Option<&Friend>)
        ensures
            found is Some <==> self@.dom().contains(user_id@),
            found matches Some(friend) ==> friend@ == self@[user_id@],
            registry_valid(self@),
    {
        let found = self.storage.get_friend(user_id);
        proof {
            lemma_registry_valid(self.records());
        }
        found
    }

    /// All friends, each once, in no particular order: the list holds the
    /// registry's entries and nothing else.
    pub fn get_all_friends(&self) -> (all: Vec<&Friend>)
        ensures
            all@.len() == self.records().len(),
            forall|i: int| 0 <= i < all@.len() ==> (#[trigger] all@[i])@ == self.records()[i],
            records_valid(self.records()),
            self@ == registry_of(self.records()),
            registry_valid(self@),
    {
        let all = self.storage.get_all_friends();
        proof {
            lemma_registry_valid(self.records());
        }
        all
    }

    /// Gives a friend a new nickname.
    ///
    /// The nickname is refused where another friend has it; the friend's own
    /// nickname does not count. Otherwise the friend must exist.
    pub fn update_nickname(&mut self, user_id: &[u8; 32], nickname: String) -> (updated: Result<
        (),
        FriendError,
    >)
        ensures
            updated == Err::<(), FriendError>(FriendError::NicknameTaken) <==> nickname_taken(
                old(self)@,
                nickname@,
                Some(user_id@),
            ),
            updated == Err::<(), FriendError>(FriendError::NotFound) <==> !nickname_taken(
                old(self)@,
                nickname@,
                Some(user_id@),
            ) && !old(self)@.dom().contains(user_id@),
            updated is Ok <==> old(self)@.dom().contains(user_id@) && !nickname_taken(
                old(self)@,
                nickname@,
                Some(user_id@),
            ),
            updated is Ok ==> final(self)@ == old(self)@.insert(
                user_id@,
                with_profile(old(self)@[user_id@], Some(nickname@), None, None, None),
            ),
            updated is Err ==> final(self)@ == old(self)@,
    {
        self.storage.update_nickname(user_id, nickname)
    }

    /// Updates the labels of a friend: each given field replaces the old
    /// one, and `Some(None)` as display name clears it.
    ///
    /// A new nickname is refused where another friend has it; the friend's
    /// own nickname does not count. Otherwise the friend must exist.
    pub fn update_profile(
        &mut self,
        user_id: &[u8; 32],
        nickname: Option<String>,
        notes: Option<String>,
        tags: Option<Vec<String>>,
        custom_display_name: Option<Option<String>>,
    ) -> (updated: Result<(), FriendError>)
        ensures
            updated == Err::<(), FriendError>(FriendError::NicknameTaken) <==> (nickname
                matches Some(n) && nickname_taken(old(self)@, n@, Some(user_id@))),
            updated == Err::<(), FriendError>(FriendError::NotFound) <==> !(nickname matches Some(n)
                && nickname_taken(old(self)@, n@, Some(user_id@))) && !old(self)@.dom().contains(
                user_id@,
            ),
            updated is Ok <==> !(nickname matches Some(n) && nickname_taken(
                old(self)@,
                n@,
                Some(user_id@),
            )) && old(self)@.dom().contains(user_id@),
            updated is Ok ==> final(self)@ == old(self)@.insert(
                user_id@,
                with_profile(
                    old(self)@[user_id@],
                    optional_view(nickname),
                    optional_view(notes),
                    optional_strings_view(tags),
                    nested_optional_view(custom_display_name),
                ),
            ),
            updated is Err ==> final(self)@ == old(self)@,
    {
        self.storage.update_profile(user_id, nickname, notes, tags, custom_display_name)
    }

    /// The name under which a friend is shown: the custom display name where
    /// there is one, else the nickname.
    pub fn get_display_name(&self, user_id: &[u8; 32]) -> (name: Option<String>)
        ensures
            name is Some <==> self@.dom().contains(user_id@),
            name matches Some(text) ==> text@ == display_name(self@[user_id@]),
    {
        match self.storage.get_friend(user_id) {
            Some(friend) => match &friend.custom_display_name {
                Some(custom) => Some(custom.clone()),
                None => Some(friend.nickname.clone()),
            },
            None => None,
        }
    }
}

proof fn lemma_restored_stays_none(friends: Seq<FriendView>, n: int)
    requires
        0 <= n <= friends.len(),
        restored(friends.subrange(0, n)) is None,
    ensures
        restored(friends) is None,
    decreases friends.len() - n,
{
    if n < friends.len() {
        let next = friends.subrange(0, n + 1);
        assert(next.drop_last() =~= friends.subrange(0, n));
        lemma_restored_stays_none(friends, n + 1);
    } else {
        assert(friends.subrange(0, n) =~= friends);
    }
}

/// The public part of a friend or of an identity, as it is exchanged: the
/// user id and the Ed25519 public key, both in hexadecimal.
#[derive(Clone, Debug)]
pub struct FriendExport {
    pub user_id: String,
    pub ed25519_public: String,
}

impl FriendExport {
    /// The public part of a friend record.
    pub fn from(friend: &Friend) -> (export: Self)
        ensures
            export.user_id@ == hex_string(friend.user_id@),
            export.ed25519_public@ == hex_string(friend.ed25519_public@),
    {
        FriendExport {
            user_id: hex_encode(friend.user_id.as_slice()),
            ed25519_public: hex_encode(friend.ed25519_public.as_slice()),
        }
    }
}

/// Reads the public part of a friend as it came in, decoded from JSON: the
/// user id as it was claimed, and the public key.
///
/// The key must be hexadecimal and spell 32 bytes. The claimed user id is
/// handed back untouched; it is the registry that binds a user id to its key.
pub fn parse_friend_from_json(export: &FriendExport) -> (parsed: Result<
    (String, [u8; 32]),
    FriendError,
>)
    ensures
        parsed is Ok <==> is_hex(encode_utf8(export.ed25519_public@)) && encode_utf8(
            export.ed25519_public@,
        ).len() == 64,
        parsed matches Ok((user_id, key)) ==> {
            &&& user_id@ == export.user_id@
            &&& key@ == hex_bytes(encode_utf8(export.ed25519_public@))
        },
        parsed == Err::<(String, [u8; 32]), FriendError>(FriendError::InvalidHex) <==> !is_hex(
            encode_utf8(export.ed25519_public@),
        ),
        parsed matches Err(e) ==> e == FriendError::InvalidHex || e
            == FriendError::InvalidKeyLength,
{
    match hex_decode(export.ed25519_public.as_str().as_bytes()) {
        Ok(bytes) => {
            if bytes.len() != 32 {
                Err(FriendError::InvalidKeyLength)
            } else {
                Ok((export.user_id.clone(), to_array32(bytes.as_slice())))
            }
        },
        Err(_) => Err(FriendError::InvalidHex),
    }
}

} // verus!
