use vstd::prelude::*;
use std::collections::HashMap;
use crate::state::{seed_when_missing, lazy_seed, BotStateInitialization, InitAction, PersistFault};

verus! {

broadcast use vstd::std_specs::hash::group_hash_axioms;

/// The roles that were taken from each contained member, by the member's
/// identifier, kept until the member is released.
pub struct RoleBackups(pub HashMap<u64, Vec<u64>>);

impl View for RoleBackups {
    type V = Map<u64, Seq<u64>>;

    open spec fn view(&self) -> Map<u64, Seq<u64>> {
        self.0@.map_values(|roles: Vec<u64>| roles@)
    }
}

impl Clone for RoleBackups {
    fn clone(&self) -> (copy: Self)
        ensures
            copy@ == self@,
    {
        RoleBackups(self.0.clone())
    }
}

impl Default for RoleBackups {
    fn default() -> (backups: Self)
        ensures
            backups@ == Map::<u64, Seq<u64>>::empty(),
    {
        let backups = RoleBackups(HashMap::new());
        assert(backups@ =~= Map::<u64, Seq<u64>>::empty());
        backups
    }
}

impl RoleBackups {
    /// Records the roles of a member who has no record yet. Returns `true`
    /// exactly when the record was made; a member who has one keeps it.
    pub fn add(&mut self, user_id: u64, role_ids: &Vec<u64>) -> (added: bool)
        ensures
            added == !old(self)@.contains_key(user_id),
            final(self)@ == if added {
                old(self)@.insert(user_id, role_ids@)
            } else {
                old(self)@
            },
    {
        if !self.0.contains_key(&user_id) {
            let roles = role_ids.clone();
            self.0.insert(user_id, roles);
            assert(self@ =~= old(self)@.insert(user_id, role_ids@));
            true
        } else {
            false
        }
    }

    /// Takes the record of a member out and returns it. Returns `None`, and
    /// changes nothing, where the member has no record.
    pub fn remove(&mut self, user_id: u64) -> (roles: Option<Vec<u64>>)
        ensures
            match roles {
                Some(taken) => old(self)@.contains_key(user_id) && taken@ == old(self)@[user_id],
                None => !old(self)@.contains_key(user_id),
            },
            final(self)@ == old(self)@.remove(user_id),
    {
        if self.0.contains_key(&user_id) {
            let taken = self.0.remove(&user_id);
            assert(self@ =~= old(self)@.remove(user_id));
            taken
        } else {
            assert(self@ =~= old(self)@.remove(user_id));
            None
        }
    }
}

impl BotStateInitialization for RoleBackups {
    open spec fn key_text() -> Seq<char> {
        "role_backup"@
    }

    open spec fn init_rule(probe: Option<PersistFault>) -> Result<InitAction, PersistFault> {
        seed_when_missing(probe)
    }

    fn get_key(&self) -> (key: String) {
        "role_backup".to_string()
    }

    fn init_state_inner(
        &self,
        probe: Option<PersistFault>,
    ) -> (action: Result<InitAction, PersistFault>) {
        lazy_seed(probe)
    }
}

} // verus!
