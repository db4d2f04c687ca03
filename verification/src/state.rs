use vstd::prelude::*;
use crate::model::{Role, RoleId};

pub mod active_collectors;
pub mod admins;
pub mod games;
pub mod guild_apply;
pub mod role_backups;
pub mod t_rooms;

verus! {

/// What the key-value store answered when a collection was asked for.
#[derive(Clone, Copy, PartialEq, Eq, Structural, Debug)]
pub enum PersistFault {
    /// The key is no valid name in the store.
    InvalidKey,
    /// The file behind the key could not be opened.
    Open,
    /// The store's folder could not be created.
    CreateFolder,
    /// The store's folder could not be listed.
    ListFolder,
    /// A name in the store's folder could not be read.
    ListName,
    /// The store's folder could not be cleared.
    RemoveFolder,
    /// The file behind the key could not be removed.
    RemoveFile,
    /// The value could not be written in the store's format.
    Serialize,
    /// What the store holds under the key is no value of the expected shape.
    Deserialize,
}

/// The classes of failure that callers tell apart.
#[derive(Clone, Copy, PartialEq, Eq, Structural, Debug)]
pub enum StoreError {
    /// Nothing is stored under the key.
    NotFound,
    /// What is stored under the key does not have the expected shape.
    Deserialize,
    /// The store could not do its work.
    CollaboratorUnavailable,
}

/// What start-up does about one collection whose state in the store is
/// known.
#[derive(Clone, Copy, PartialEq, Eq, Structural, Debug)]
pub enum InitAction {
    /// Leave the store as it is.
    Keep,
    /// Write the collection's default value under its key.
    WriteDefault,
}

impl PersistFault {
    /// The class of this fault. A file that cannot be opened is how the store
    /// reports a key that was never written.
    pub open spec fn spec_class(self) -> StoreError {
        match self {
            PersistFault::Open => StoreError::NotFound,
            PersistFault::Deserialize => StoreError::Deserialize,
            _ => StoreError::CollaboratorUnavailable,
        }
    }

    /// The class of this fault.
    pub fn class(&self) -> (class: StoreError)
        ensures
            class == self.spec_class(),
    {
        match self {
            PersistFault::Open => StoreError::NotFound,
            PersistFault::Deserialize => StoreError::Deserialize,
            _ => StoreError::CollaboratorUnavailable,
        }
    }
}

/// The rule that seeds a collection lazily. `probe` is what the store
/// answered when the collection was asked for: `None` when it was loaded,
/// else the fault. A collection that was loaded is kept; the default value
/// is written when nothing is stored under the key; any other fault is
/// handed on, and nothing is written.
pub open spec fn seed_when_missing(
    probe: Option<PersistFault>,
) -> Result<InitAction, PersistFault> {
    match probe {
        None => Ok(InitAction::Keep),
        Some(fault) => if fault.spec_class() == StoreError::NotFound {
            Ok(InitAction::WriteDefault)
        } else {
            Err(fault)
        },
    }
}

/// Decides by [`seed_when_missing`].
pub fn lazy_seed(probe: Option<PersistFault>) -> (action: Result<InitAction, PersistFault>)
    ensures
        action == seed_when_missing(probe),
{
    match probe {
        None => Ok(InitAction::Keep),
        Some(fault) => match fault.class() {
            StoreError::NotFound => Ok(InitAction::WriteDefault),
            _ => Err(fault),
        },
    }
}

/// Lazy seeding keeps exactly what was loaded, writes the default exactly
/// when the store reports that the file behind the key cannot be opened, and
/// hands on every other fault as it came. A store that answers with the
/// collection, as it does after that write, is left alone.
pub proof fn lemma_seeding_writes_once(probe: Option<PersistFault>)
    ensures
        seed_when_missing(probe) is Ok && seed_when_missing(probe)->Ok_0 == InitAction::Keep
            <==> probe is None,
        seed_when_missing(probe) is Ok && seed_when_missing(probe)->Ok_0
            == InitAction::WriteDefault <==> probe == Some(PersistFault::Open),
        seed_when_missing(probe) is Err <==> probe is Some && probe->0 != PersistFault::Open,
        seed_when_missing(probe) is Err ==> seed_when_missing(probe)->Err_0 == probe->0,
{
}

/// A collection that lives in the store under a key of its own.
pub trait BotStateInitialization: Default {
    /// The key, as text.
    spec fn key_text() -> Seq<char>;

    /// What start-up does for a given answer of the store.
    spec fn init_rule(probe: Option<PersistFault>) -> Result<InitAction, PersistFault>;

    fn get_key(&self) -> (key: String)
        ensures
            key@ == Self::key_text(),
    ;

    /// Decides what start-up does about this collection, given what the
    /// store answered when the collection was asked for (`None`: it was
    /// loaded). The caller performs the action, or hands the fault on and
    /// writes nothing. Whatever the rule of the collection: a missing key
    /// has the default written, a fault that is handed on is the one that
    /// the store gave, and the store is left as it is only where the
    /// collection was loaded.
    fn init_state_inner(
        &self,
        probe: Option<PersistFault>,
    ) -> (action: Result<InitAction, PersistFault>)
        ensures
            action == Self::init_rule(probe),
            probe is Some && probe->0.spec_class() == StoreError::NotFound ==> action is Ok
                && action->Ok_0 == InitAction::WriteDefault,
            probe is None ==> action is Ok,
            action is Err ==> probe == Some(action->Err_0),
            action is Ok && action->Ok_0 == InitAction::Keep ==> probe is None,
    ;
}

/// The first place at which `id` stands in `ids`, or the length of `ids`
/// where it stands nowhere.
pub open spec fn first_index(ids: Seq<u64>, id: u64) -> int
    decreases ids.len(),
{
    if ids.len() == 0 {
        0
    } else if ids[0] == id {
        0
    } else {
        1 + first_index(ids.drop_first(), id)
    }
}

/// Whether adding `id` to `ids` changes the list.
pub open spec fn adds(ids: Seq<u64>, id: u64) -> bool {
    !ids.contains(id)
}

/// Whether removing `id` from `ids` changes the list.
pub open spec fn removes(ids: Seq<u64>, id: u64) -> bool {
    ids.contains(id)
}

/// `ids` after `id` was added: unchanged where it holds `id` already.
pub open spec fn with_id(ids: Seq<u64>, id: u64) -> Seq<u64> {
    if ids.contains(id) {
        ids
    } else {
        ids.push(id)
    }
}

/// `ids` after `id` was removed: the first occurrence leaves, the rest
/// keeps its order.
pub open spec fn without_id(ids: Seq<u64>, id: u64) -> Seq<u64> {
    if ids.contains(id) {
        ids.remove(first_index(ids, id))
    } else {
        ids
    }
}

/// What [`first_index`] is: a place within the list or its length, with no
/// `id` before it and `id` at it; it is a place exactly when the list holds
/// `id`.
pub proof fn lemma_first_index(ids: Seq<u64>, id: u64)
    ensures
        0 <= first_index(ids, id) <= ids.len(),
        forall|j: int| 0 <= j < first_index(ids, id) ==> ids[j] != id,
        first_index(ids, id) < ids.len() ==> ids[first_index(ids, id)] == id,
        first_index(ids, id) < ids.len() <==> ids.contains(id),
    decreases ids.len(),
{
    if ids.len() == 0 {
    } else if ids[0] == id {
    } else {
        let rest = ids.drop_first();
        lemma_first_index(rest, id);
        let k = first_index(rest, id);
        assert forall|j: int| 0 <= j < 1 + k implies ids[j] != id by {
            if j > 0 {
                assert(rest[j - 1] == ids[j]);
            }
        }
        if k < rest.len() {
            assert(rest[k] == ids[k + 1]);
        }
        if ids.contains(id) {
            let w = choose|w: int| 0 <= w < ids.len() && ids[w] == id;
            assert(rest[w - 1] == id);
        }
    }
}

/// On a list that does not hold `id`: the first add changes the list, the
/// second does not; the first remove after that changes it back, and the
/// second does not.
pub proof fn lemma_add_twice_remove_twice(ids: Seq<u64>, id: u64)
    requires
        !ids.contains(id),
    ensures
        ({
            let once = with_id(ids, id);
            let twice = with_id(once, id);
            let removed = without_id(twice, id);
            &&& adds(ids, id)
            &&& once == ids.push(id)
            &&& !adds(once, id)
            &&& twice == once
            &&& removes(twice, id)
            &&& removed == ids
            &&& !removes(removed, id)
            &&& without_id(removed, id) == ids
        }),
{
    let once = ids.push(id);
    assert(once[ids.len() as int] == id);
    assert(once.contains(id));
    lemma_first_index(once, id);
    let k = first_index(once, id);
    if k < ids.len() {
        assert(ids[k] == once[k]);
        assert(ids.contains(id));
    }
    assert(once.remove(k) =~= ids);
}

/// A list holds `id` right after an add that changed it.
pub proof fn lemma_found_after_add(ids: Seq<u64>, id: u64)
    ensures
        with_id(ids, id).contains(id),
{
    if !ids.contains(id) {
        assert(ids.push(id)[ids.len() as int] == id);
    }
}

/// A list in which nothing occurs twice no longer holds `id` right after a
/// remove that changed it.
pub proof fn lemma_absent_after_remove(ids: Seq<u64>, id: u64)
    requires
        ids.no_duplicates(),
    ensures
        !without_id(ids, id).contains(id),
{
    lemma_first_index(ids, id);
    if ids.contains(id) {
        let k = first_index(ids, id);
        let rest = ids.remove(k);
        if rest.contains(id) {
            let w = choose|w: int| 0 <= w < rest.len() && rest[w] == id;
            if w < k {
                assert(ids[w] == id);
            } else {
                assert(ids[w + 1] == id);
            }
        }
    }
}

/// Adding and removing keep a list free of duplicates.
pub proof fn lemma_no_duplicates_kept(ids: Seq<u64>, id: u64)
    requires
        ids.no_duplicates(),
    ensures
        with_id(ids, id).no_duplicates(),
        without_id(ids, id).no_duplicates(),
{
    lemma_first_index(ids, id);
    if !ids.contains(id) {
        let more = ids.push(id);
        assert forall|i: int, j: int|
            0 <= i < more.len() && 0 <= j < more.len() && i != j implies more[i] != more[j] by {
            if i < ids.len() && j < ids.len() {
            } else if i < ids.len() {
                assert(ids[i] == more[i]);
            } else {
                assert(ids[j] == more[j]);
            }
        }
    } else {
        let k = first_index(ids, id);
        let rest = ids.remove(k);
        assert forall|i: int, j: int|
            0 <= i < rest.len() && 0 <= j < rest.len() && i != j implies rest[i] != rest[j] by {
            let a = if i < k { i } else { i + 1 };
            let b = if j < k { j } else { j + 1 };
            assert(rest[i] == ids[a]);
            assert(rest[j] == ids[b]);
        }
    }
}

/// A persisted list of identifiers. Adding and removing say by their result
/// whether the list changed; the caller writes the list back when it did.
pub trait SnowflakeStorage: BotStateInitialization + Clone {
    /// The identifiers, in stored order.
    spec fn ids(&self) -> Seq<u64>;

    fn snowflake_found(&self, id: &u64) -> (found: bool)
        ensures
            found == self.ids().contains(*id),
    ;

    fn push_snowflake(&mut self, id: u64)
        ensures
            final(self).ids() == old(self).ids().push(id),
    ;

    fn remove_snowflake(&mut self, index: usize)
        requires
            index < old(self).ids().len(),
        ensures
            final(self).ids() == old(self).ids().remove(index as int),
    ;

    fn snowflakes(&self) -> (ids: &Vec<u64>)
        ensures
            ids@ == self.ids(),
    ;

    /// Appends `id` unless the list holds it already. Returns `true` exactly
    /// when the list changed.
    fn add(&mut self, id: u64) -> (added: bool)
        ensures
            added == adds(old(self).ids(), id),
            final(self).ids() == with_id(old(self).ids(), id),
    {
        if !self.snowflake_found(&id) {
            self.push_snowflake(id);
            true
        } else {
            false
        }
    }

    /// Removes the first occurrence of `id`. Returns `true` exactly when the
    /// list held `id`.
    fn remove(&mut self, id: u64) -> (removed: bool)
        ensures
            removed == removes(old(self).ids(), id),
            final(self).ids() == without_id(old(self).ids(), id),
    {
        let found = position(self.snowflakes(), id);
        proof {
            lemma_first_index(self.ids(), id);
        }
        match found {
            Some(index) => {
                self.remove_snowflake(index);
                true
            },
            None => false,
        }
    }
}

/// Whether some key of `map` leads to `value`.
pub open spec fn has_value(map: Map<Seq<char>, u64>, value: u64) -> bool {
    exists|key: Seq<char>| map.contains_key(key) && map[key] == value
}

/// Whether adding the pair changes `map`: neither is `key` a key of it, nor
/// does any key of it lead to `value`.
pub open spec fn adds_pair(map: Map<Seq<char>, u64>, key: Seq<char>, value: u64) -> bool {
    !map.contains_key(key) && !has_value(map, value)
}

/// No value is reached from two keys of `map`.
pub open spec fn values_distinct(map: Map<Seq<char>, u64>) -> bool {
    forall|a: Seq<char>, b: Seq<char>|
        map.contains_key(a) && map.contains_key(b) && map[a] == map[b] ==> a == b
}

/// A pair is refused where its key is a key of the map already, and where
/// its value is reached from some key already, whatever the other half is.
pub proof fn lemma_pair_refused(map: Map<Seq<char>, u64>, key: Seq<char>, value: u64)
    requires
        map.contains_key(key) || has_value(map, value),
    ensures
        !adds_pair(map, key, value),
{
}

/// A pair that was added is found by its key and by its value, and a map in
/// which no value was reached twice is still such a map.
pub proof fn lemma_pair_added(map: Map<Seq<char>, u64>, key: Seq<char>, value: u64)
    requires
        adds_pair(map, key, value),
    ensures
        map.insert(key, value).contains_key(key),
        has_value(map.insert(key, value), value),
        !adds_pair(map.insert(key, value), key, value),
        values_distinct(map) ==> values_distinct(map.insert(key, value)),
{
    let more = map.insert(key, value);
    assert(more.contains_key(key) && more[key] == value);
    if values_distinct(map) {
        assert forall|a: Seq<char>, b: Seq<char>|
            more.contains_key(a) && more.contains_key(b) && more[a] == more[b] implies a == b by {
            if a != key && b != key {
                assert(map.contains_key(a) && map.contains_key(b) && map[a] == map[b]);
            } else if a != key {
                assert(map.contains_key(a) && map[a] == value);
            } else if b != key {
                assert(map.contains_key(b) && map[b] == value);
            }
        }
    }
}

/// A persisted map from labels to identifiers in which no label and no
/// identifier occurs twice. Adding and removing say by their result whether
/// the map changed; the caller writes the map back when it did.
pub trait SnowflakeHashmapStorage: BotStateInitialization + Clone {
    /// The map, as a plain value.
    spec fn map(&self) -> Map<Seq<char>, u64>;

    fn snowflake_key_found(&self, key: &String) -> (found: bool)
        ensures
            found == self.map().contains_key(key@),
    ;

    fn snowflake_value_found(&self, value: &u64) -> (found: bool)
        ensures
            found == has_value(self.map(), *value),
    ;

    fn push_kv_inner(&mut self, key: String, value: u64)
        ensures
            final(self).map() == old(self).map().insert(key@, value),
    ;

    fn remove_inner(&mut self, key: String)
        ensures
            final(self).map() == old(self).map().remove(key@),
    ;

    /// Adds the pair unless `key` is a key already or `value` is reached
    /// from some key already. Returns `true` exactly when the map changed.
    fn add(&mut self, key: String, value: u64) -> (added: bool)
        ensures
            added == adds_pair(old(self).map(), key@, value),
            final(self).map() == if added {
                old(self).map().insert(key@, value)
            } else {
                old(self).map()
            },
    {
        if !self.snowflake_key_found(&key) && !self.snowflake_value_found(&value) {
            self.push_kv_inner(key, value);
            true
        } else {
            false
        }
    }

    /// Removes `key` and what it leads to. Returns `true` exactly when `key`
    /// was a key of the map.
    fn remove(&mut self, key: String) -> (removed: bool)
        ensures
            removed == old(self).map().contains_key(key@),
            final(self).map() == old(self).map().remove(key@),
    {
        if self.snowflake_key_found(&key) {
            self.remove_inner(key);
            true
        } else {
            assert(self.map().remove(key@) =~= self.map());
            false
        }
    }
}

/// serenity's cache of what the gateway has told about guilds. Its contents
/// change while the bot runs, and nothing is stated of them.
#[verifier::external_type_specification]
#[verifier::external_body]
pub struct ExCache(serenity::cache::Cache);

/// Looks a role up with serenity's `RoleId::to_role_cached`, which walks the
/// guilds in the cache and hands out a copy of the role stored under the
/// identifier, if any guild has one. Identifier and name are taken from
/// what it returns. Nothing is claimed of the result: it depends on what
/// the cache holds at that moment.
#[verifier::external_body]
pub(crate) fn cached_role(cache: &serenity::cache::Cache, id: u64) -> (role: Option<Role>) {
    match serenity::model::id::RoleId(id).to_role_cached(cache) {
        Some(role) => Some(Role { id: RoleId(role.id.0), name: role.name }),
        None => None,
    }
}

/// What is left of a list of lookups when those that found nothing are
/// dropped: the roles that were found, in the order of the lookups.
pub open spec fn resolved(lookups: Seq<Option<Role>>) -> Seq<Role>
    decreases lookups.len(),
{
    if lookups.len() == 0 {
        Seq::empty()
    } else {
        match lookups.last() {
            Some(role) => resolved(lookups.drop_last()).push(role),
            None => resolved(lookups.drop_last()),
        }
    }
}

/// No more roles are left than lookups were made.
pub proof fn lemma_resolved_len(lookups: Seq<Option<Role>>)
    ensures
        resolved(lookups).len() <= lookups.len(),
    decreases lookups.len(),
{
    if lookups.len() > 0 {
        lemma_resolved_len(lookups.drop_last());
    }
}

/// Drops the lookups that found nothing and keeps the roles of the others
/// in order.
pub fn keep_resolved(lookups: Vec<Option<Role>>) -> (roles: Vec<Role>)
    ensures
        roles@ == resolved(lookups@),
{
    let mut lookups = lookups;
    let ghost all = lookups@;
    let mut roles: Vec<Role> = Vec::new();
    let mut i: usize = 0;
    let count = lookups.len();
    while i < count
        invariant
            i <= count,
            count == all.len(),
            lookups@.len() == count,
            forall|j: int| i <= j < count ==> lookups@[j] == all[j],
            roles@ == resolved(all.take(i as int)),
        decreases count - i,
    {
        let mut lookup: Option<Role> = None;
        std::mem::swap(&mut lookup, &mut lookups[i]);
        proof {
            assert(all.take(i + 1).drop_last() =~= all.take(i as int));
            assert(all.take(i + 1).last() == all[i as int]);
        }
        match lookup {
            Some(role) => {
                roles.push(role);
            },
            None => {},
        }
        i += 1;
    }
    assert(all.take(i as int) =~= all);
    roles
}

/// A list of role identifiers that can be resolved to the roles themselves.
pub trait SnowflakesToRoles: SnowflakeStorage {
    /// Resolves each identifier through the cache and keeps the roles that
    /// were found, in stored order. An identifier that the cache does not
    /// know is passed over; it stays in the list.
    fn to_roles(&self, cache: &serenity::cache::Cache) -> (roles: Vec<Role>)
        ensures
            exists|lookups: Seq<Option<Role>>|
                lookups.len() == self.ids().len() && roles@ == #[trigger] resolved(lookups),
            roles@.len() <= self.ids().len(),
    {
        let snowflakes = self.snowflakes();
        let mut lookups: Vec<Option<Role>> = Vec::new();
        let mut i: usize = 0;
        while i < snowflakes.len()
            invariant
                i <= snowflakes.len(),
                lookups@.len() == i,
            decreases snowflakes.len() - i,
        {
            lookups.push(cached_role(cache, snowflakes[i]));
            i += 1;
        }
        proof {
            lemma_resolved_len(lookups@);
        }
        keep_resolved(lookups)
    }
}

/// The first index at which `id` stands in `ids`.
pub fn position(ids: &Vec<u64>, id: u64) -> (found: Option<usize>)
    ensures
        found is Some <==> ids@.contains(id),
        found is Some ==> found->0 == first_index(ids@, id),
{
    let mut i: usize = 0;
    while i < ids.len()
        invariant
            i <= ids.len(),
            forall|j: int| 0 <= j < i ==> ids@[j] != id,
        decreases ids.len() - i,
    {
        if ids[i] == id {
            proof {
                lemma_first_index(ids@, id);
            }
            return Some(i);
        }
        i += 1;
    }
    None
}

} // verus!
