use vstd::prelude::*;
use crate::constants::MASTER_ADMIN;
use crate::extensions::{list_users, user_lines};
use crate::state::{
    seed_when_missing, BotStateInitialization, InitAction, PersistFault, SnowflakeStorage,
};

verus! {

/// The accounts that may use the moderation commands.
pub struct Admins(pub Vec<u64>);

impl Clone for Admins {
    fn clone(&self) -> (copy: Self)
        ensures
            copy.0@ == self.0@,
    {
        Admins(self.0.clone())
    }
}

impl Default for Admins {
    fn default() -> (admins: Self)
        ensures
            admins.0@ == seq![MASTER_ADMIN],
    {
        let mut ids: Vec<u64> = Vec::new();
        ids.push(MASTER_ADMIN);
        Admins(ids)
    }
}

impl Admins {
    /// The list as it is shown: one line per admin, each a mention.
    pub fn to_string(&self) -> (lines: String)
        ensures
            lines@ == user_lines(self.0@),
    {
        list_users(&self.0)
    }
}

impl BotStateInitialization for Admins {
    open spec fn key_text() -> Seq<char> {
        "admins"@
    }

    open spec fn init_rule(probe: Option<PersistFault>) -> Result<InitAction, PersistFault> {
        seed_when_missing(probe)
    }

    fn get_key(&self) -> (key: String) {
        "admins".to_string()
    }

    fn init_state_inner(
        &self,
        probe: Option<PersistFault>,
    ) -> (action: Result<InitAction, PersistFault>) {
        crate::state::lazy_seed(probe)
    }
}

impl SnowflakeStorage for Admins {
    open spec fn ids(&self) -> Seq<u64> {
        self.0@
    }

    fn snowflake_found(&self, id: &u64) -> (found: bool) {
        crate::state::position(&self.0, *id).is_some()
    }

    fn push_snowflake(&mut self, id: u64) {
        self.0.push(id);
    }

    fn remove_snowflake(&mut self, index: usize) {
        self.0.remove(index);
    }

    fn snowflakes(&self) -> (ids: &Vec<u64>) {
        &self.0
    }
}

} // verus!
