use vstd::prelude::*;
use crate::extensions::{list_roles, role_lines};
use crate::state::{
    seed_when_missing, BotStateInitialization, InitAction, PersistFault, SnowflakeStorage,
    SnowflakesToRoles,
};

verus! {

/// The game roles that members may give themselves.
pub struct Games(pub Vec<u64>);

impl Clone for Games {
    fn clone(&self) -> (copy: Self)
        ensures
            copy.0@ == self.0@,
    {
        Games(self.0.clone())
    }
}

impl Default for Games {
    fn default() -> (games: Self)
        ensures
            games.0@ == Seq::<u64>::empty(),
    {
        Games(Vec::new())
    }
}

impl Games {
    /// The list as it is shown: one line per game, each a mention of its
    /// role.
    pub fn to_string(&self) -> (lines: String)
        ensures
            lines@ == role_lines(self.0@),
    {
        list_roles(&self.0)
    }
}

impl BotStateInitialization for Games {
    open spec fn key_text() -> Seq<char> {
        "games"@
    }

    open spec fn init_rule(probe: Option<PersistFault>) -> Result<InitAction, PersistFault> {
        seed_when_missing(probe)
    }

    fn get_key(&self) -> (key: String) {
        "games".to_string()
    }

    fn init_state_inner(
        &self,
        probe: Option<PersistFault>,
    ) -> (action: Result<InitAction, PersistFault>) {
        crate::state::lazy_seed(probe)
    }
}

impl SnowflakeStorage for Games {
    open spec fn ids(&self) -> Seq<u64> {
        self.0@
    }

    fn snowflake_found(&self, id: &u64) -> (found: bool) {
        crate::state::position(&self.0, *id).is_some()
    }

    fn push_snowflake(&mut self, id: u64) {
        self.0.push(id);
    }

    fn remove_snowflake(&mut self, index: usize) {
        self.0.remove(index);
    }

    fn snowflakes(&self) -> (ids: &Vec<u64>) {
        &self.0
    }
}

impl SnowflakesToRoles for Games {

}

} // verus!
