use vstd::prelude::*;
use vstd::string::*;
use crate::extensions::{channel_mention, InteractiveSnowflakeExt};
use crate::model::ChannelId;
use crate::state::{
    has_value, seed_when_missing, lazy_seed, BotStateInitialization, InitAction, PersistFault,
    SnowflakeHashmapStorage,
};

verus! {

/// The entries of a list of pairs as plain values.
pub open spec fn plain_entries(entries: Seq<(String, u64)>) -> Seq<(Seq<char>, u64)> {
    entries.map_values(|entry: (String, u64)| (entry.0@, entry.1))
}

/// Whether no key stands at two places of `entries`.
pub open spec fn keys_distinct(entries: Seq<(Seq<char>, u64)>) -> bool {
    forall|i: int, j: int| 0 <= i < j < entries.len() ==> entries[i].0 != entries[j].0
}

/// The map that a list of pairs stands for.
pub open spec fn entries_map(entries: Seq<(Seq<char>, u64)>) -> Map<Seq<char>, u64>
    decreases entries.len(),
{
    if entries.len() == 0 {
        Map::empty()
    } else {
        entries_map(entries.drop_last()).insert(entries.last().0, entries.last().1)
    }
}

/// With distinct keys, the map holds exactly the pairs of the list.
pub proof fn lemma_entries_map(entries: Seq<(Seq<char>, u64)>)
    requires
        keys_distinct(entries),
    ensures
        forall|i: int|
            0 <= i < entries.len() ==> #[trigger] entries_map(entries).contains_key(entries[i].0)
                && entries_map(entries)[entries[i].0] == entries[i].1,
        forall|key: Seq<char>| #[trigger]
            entries_map(entries).contains_key(key) ==> exists|i: int|
                0 <= i < entries.len() && entries[i].0 == key,
        entries_map(entries).dom().finite(),
    decreases entries.len(),
{
    if entries.len() > 0 {
        let front = entries.drop_last();
        lemma_entries_map(front);
        assert forall|i: int| 0 <= i < entries.len() implies #[trigger] entries_map(
            entries,
        ).contains_key(entries[i].0) && entries_map(entries)[entries[i].0] == entries[i].1 by {
            if i < front.len() {
                assert(front[i] == entries[i]);
                assert(entries_map(front).contains_key(front[i].0));
            }
        }
        assert forall|key: Seq<char>| #[trigger]
            entries_map(entries).contains_key(key) implies exists|i: int|
            0 <= i < entries.len() && entries[i].0 == key by {
            if key == entries.last().0 {
                assert(entries[entries.len() - 1].0 == key);
            } else {
                assert(entries_map(front).contains_key(key));
                let i = choose|i: int| 0 <= i < front.len() && front[i].0 == key;
                assert(entries[i].0 == key);
            }
        }
    }
}

/// One line per pair: the label, a colon, and the mention of the channel.
pub open spec fn entry_lines(entries: Seq<(Seq<char>, u64)>) -> Seq<char>
    decreases entries.len(),
{
    if entries.len() == 0 {
        Seq::empty()
    } else {
        entry_lines(entries.drop_last()) + entries.last().0 + ": "@ + channel_mention(
            entries.last().1,
        ) + "\n"@
    }
}

/// Labels of games, each with the channel that takes applications for it.
/// No label stands twice, and through [`SnowflakeHashmapStorage::add`] no
/// channel does.
pub struct GuildApply(Vec<(String, u64)>);

impl View for GuildApply {
    type V = Map<Seq<char>, u64>;

    closed spec fn view(&self) -> Map<Seq<char>, u64> {
        entries_map(plain_entries(self.0@))
    }
}

impl Clone for GuildApply {
    fn clone(&self) -> (copy: Self)
        ensures
            copy@ == self@,
            plain_entries(copy.all_entries()) == plain_entries(self.all_entries()),
    {
        proof {
            use_type_invariant(self);
        }
        let mut entries: Vec<(String, u64)> = Vec::new();
        let mut i: usize = 0;
        while i < self.0.len()
            invariant
                i <= self.0.len(),
                entries@.len() == i,
                forall|j: int|
                    0 <= j < i ==> entries@[j].0@ == self.0@[j].0@ && entries@[j].1 == self.0@[j].1,
            decreases self.0.len() - i,
        {
            let key = self.0[i].0.clone();
            entries.push((key, self.0[i].1));
            i += 1;
        }
        assert(plain_entries(entries@) =~= plain_entries(self.0@));
        GuildApply(entries)
    }
}

impl Default for GuildApply {
    fn default() -> (apply: Self)
        ensures
            apply@ == Map::<Seq<char>, u64>::empty(),
    {
        GuildApply(Vec::new())
    }
}

impl GuildApply {
    #[verifier::type_invariant]
    spec fn well_formed(&self) -> bool {
        keys_distinct(plain_entries(self.0@))
    }

    /// The place of `key` in the list.
    fn key_index(&self, key: &String) -> (found: Option<usize>)
        ensures
            found is Some <==> self@.contains_key(key@),
            found is Some ==> found->0 < self.0@.len() && self.0@[found->0 as int].0@ == key@,
    {
        proof {
            use_type_invariant(self);
        }
        let mut i: usize = 0;
        while i < self.0.len()
            invariant
                i <= self.0.len(),
                keys_distinct(plain_entries(self.0@)),
                forall|j: int| 0 <= j < i ==> plain_entries(self.0@)[j].0 != key@,
            decreases self.0.len() - i,
        {
            if self.0[i].0 == *key {
                proof {
                    lemma_entries_map(plain_entries(self.0@));
                    assert(self@.contains_key(plain_entries(self.0@)[i as int].0));
                }
                return Some(i);
            }
            i += 1;
        }
        proof {
            lemma_entries_map(plain_entries(self.0@));
        }
        None
    }

    /// The map as it is shown: one line per pair, in the order of
    /// [`GuildApply::all`].
    pub fn to_string(&self) -> (lines: String)
        ensures
            lines@ == entry_lines(plain_entries(self.all_entries())),
    {
        let mut lines = String::new();
        let mut i: usize = 0;
        let ghost entries = plain_entries(self.0@);
        proof {
            assert(entries.take(0) =~= Seq::<(Seq<char>, u64)>::empty());
        }
        while i < self.0.len()
            invariant
                i <= self.0.len(),
                entries == plain_entries(self.0@),
                lines@ == entry_lines(entries.take(i as int)),
            decreases self.0.len() - i,
        {
            proof {
                assert(entries.take(i + 1).drop_last() =~= entries.take(i as int));
                assert(entries.take(i + 1).last() == entries[i as int]);
            }
            lines.append(self.0[i].0.as_str());
            lines.append(": ");
            let mention = ChannelId(self.0[i].1).get_interactive();
            lines.append(mention.as_str());
            lines.append("\n");
            assert(lines@ =~= entry_lines(entries.take(i + 1)));
            i += 1;
        }
        assert(entries.take(i as int) =~= entries);
        lines
    }

    /// The entries as a value of specifications.
    pub closed spec fn all_entries(&self) -> Seq<(String, u64)> {
        self.0@
    }

    /// The entries, in the order in which their labels were first added.
    pub fn all(&self) -> (entries: &Vec<(String, u64)>)
        ensures
            entries@ == self.all_entries(),
            keys_distinct(plain_entries(entries@)),
            entries_map(plain_entries(entries@)) == self@,
    {
        proof {
            use_type_invariant(self);
        }
        &self.0
    }
}

impl BotStateInitialization for GuildApply {
    open spec fn key_text() -> Seq<char> {
        "guild_apply"@
    }

    open spec fn init_rule(probe: Option<PersistFault>) -> Result<InitAction, PersistFault> {
        seed_when_missing(probe)
    }

    fn get_key(&self) -> (key: String) {
        "guild_apply".to_string()
    }

    fn init_state_inner(
        &self,
        probe: Option<PersistFault>,
    ) -> (action: Result<InitAction, PersistFault>) {
        lazy_seed(probe)
    }
}

impl SnowflakeHashmapStorage for GuildApply {
    open spec fn map(&self) -> Map<Seq<char>, u64> {
        self@
    }

    fn snowflake_key_found(&self, key: &String) -> (found: bool) {
        self.key_index(key).is_some()
    }

    fn snowflake_value_found(&self, value: &u64) -> (found: bool) {
        proof {
            use_type_invariant(self);
        }
        let mut i: usize = 0;
        while i < self.0.len()
            invariant
                i <= self.0.len(),
                keys_distinct(plain_entries(self.0@)),
                forall|j: int| 0 <= j < i ==> plain_entries(self.0@)[j].1 != *value,
            decreases self.0.len() - i,
        {
            if self.0[i].1 == *value {
                proof {
                    lemma_entries_map(plain_entries(self.0@));
                    assert(self@.contains_key(plain_entries(self.0@)[i as int].0));
                }
                return true;
            }
            i += 1;
        }
        proof {
            lemma_entries_map(plain_entries(self.0@));
        }
        assert(!has_value(self@, *value)) by {
            if has_value(self@, *value) {
                let key = choose|key: Seq<char>| self@.contains_key(key) && self@[key] == *value;
                let j = choose|j: int|
                    0 <= j < plain_entries(self.0@).len() && plain_entries(self.0@)[j].0 == key;
                assert(self@[plain_entries(self.0@)[j].0] == plain_entries(self.0@)[j].1);
            }
        }
        false
    }

    fn push_kv_inner(&mut self, key: String, value: u64) {
        let found = self.key_index(&key);
        proof {
            use_type_invariant(&*self);
            lemma_entries_map(plain_entries(self.0@));
        }
        let mut entries: Vec<(String, u64)> = Vec::new();
        std::mem::swap(&mut entries, &mut self.0);
        let ghost before = plain_entries(entries@);
        match found {
            Some(index) => {
                entries.set(index, (key, value));
                let ghost after = plain_entries(entries@);
                assert(after =~= before.update(index as int, (key@, value)));
                proof {
                    lemma_update_entry(before, index as int, value);
                }
            },
            None => {
                entries.push((key, value));
                let ghost after = plain_entries(entries@);
                assert(after =~= before.push((key@, value)));
                assert(after.drop_last() =~= before);
            },
        }
        self.0 = entries;
    }

    fn remove_inner(&mut self, key: String) {
        let found = self.key_index(&key);
        proof {
            use_type_invariant(&*self);
            lemma_entries_map(plain_entries(self.0@));
        }
        let mut entries: Vec<(String, u64)> = Vec::new();
        std::mem::swap(&mut entries, &mut self.0);
        let ghost before = plain_entries(entries@);
        match found {
            Some(index) => {
                entries.remove(index);
                let ghost after = plain_entries(entries@);
                assert(after =~= before.remove(index as int));
                proof {
                    lemma_remove_entry(before, index as int);
                }
            },
            None => {
                assert(self@.remove(key@) =~= self@);
            },
        }
        self.0 = entries;
    }
}

/// Replacing the value at one place of a list with distinct keys is an
/// insert into its map.
proof fn lemma_update_entry(entries: Seq<(Seq<char>, u64)>, index: int, value: u64)
    requires
        keys_distinct(entries),
        0 <= index < entries.len(),
    ensures
        keys_distinct(entries.update(index, (entries[index].0, value))),
        entries_map(entries.update(index, (entries[index].0, value))) == entries_map(
            entries,
        ).insert(entries[index].0, value),
{
    let after = entries.update(index, (entries[index].0, value));
    assert(keys_distinct(after)) by {
        assert forall|i: int, j: int| 0 <= i < j < after.len() implies after[i].0 != after[j].0 by {
            assert(after[i].0 == entries[i].0);
            assert(after[j].0 == entries[j].0);
        }
    }
    lemma_entries_map(entries);
    lemma_entries_map(after);
    let left = entries_map(after);
    let right = entries_map(entries).insert(entries[index].0, value);
    assert forall|key: Seq<char>| left.contains_key(key) <==> right.contains_key(key) by {
        if left.contains_key(key) {
            let i = choose|i: int| 0 <= i < after.len() && after[i].0 == key;
            assert(entries[i].0 == key);
            assert(entries_map(entries).contains_key(entries[i].0));
        }
        if right.contains_key(key) && key != entries[index].0 {
            let i = choose|i: int| 0 <= i < entries.len() && entries[i].0 == key;
            assert(after[i].0 == key);
            assert(left.contains_key(after[i].0));
        }
        if key == entries[index].0 {
            assert(left.contains_key(after[index].0));
        }
    }
    assert forall|key: Seq<char>| left.contains_key(key) implies left[key] == right[key] by {
        let i = choose|i: int| 0 <= i < after.len() && after[i].0 == key;
        assert(left[after[i].0] == after[i].1);
        if i != index {
            assert(entries_map(entries)[entries[i].0] == entries[i].1);
            if i < index {
                assert(entries[i].0 != entries[index].0);
            } else {
                assert(entries[index].0 != entries[i].0);
            }
        }
    }
    assert(left =~= right);
}

/// Taking one place out of a list with distinct keys removes its key from
/// the map.
proof fn lemma_remove_entry(entries: Seq<(Seq<char>, u64)>, index: int)
    requires
        keys_distinct(entries),
        0 <= index < entries.len(),
    ensures
        keys_distinct(entries.remove(index)),
        entries_map(entries.remove(index)) == entries_map(entries).remove(entries[index].0),
{
    let after = entries.remove(index);
    assert(keys_distinct(after)) by {
        assert forall|i: int, j: int| 0 <= i < j < after.len() implies after[i].0 != after[j].0 by {
            let a = if i < index { i } else { i + 1 };
            let b = if j < index { j } else { j + 1 };
            assert(after[i] == entries[a]);
            assert(after[j] == entries[b]);
        }
    }
    lemma_entries_map(entries);
    lemma_entries_map(after);
    let left = entries_map(after);
    let right = entries_map(entries).remove(entries[index].0);
    assert forall|key: Seq<char>| left.contains_key(key) <==> right.contains_key(key) by {
        if left.contains_key(key) {
            let i = choose|i: int| 0 <= i < after.len() && after[i].0 == key;
            let a = if i < index { i } else { i + 1 };
            assert(after[i] == entries[a]);
            assert(entries_map(entries).contains_key(entries[a].0));
            if a < index {
                assert(entries[a].0 != entries[index].0);
            } else {
                assert(entries[index].0 != entries[a].0);
            }
        }
        if right.contains_key(key) {
            let a = choose|a: int| 0 <= a < entries.len() && entries[a].0 == key;
            let i = if a < index { a } else { a - 1 };
            assert(after[i] == entries[a]);
            assert(left.contains_key(after[i].0));
        }
    }
    assert forall|key: Seq<char>| left.contains_key(key) implies left[key] == right[key] by {
        let i = choose|i: int| 0 <= i < after.len() && after[i].0 == key;
        let a = if i < index { i } else { i + 1 };
        assert(after[i] == entries[a]);
        assert(left[after[i].0] == after[i].1);
        assert(entries_map(entries)[entries[a].0] == entries[a].1);
    }
    assert(left =~= right);
}

} // verus!
