use vstd::prelude::*;
use crate::state::{BotStateInitialization, InitAction, PersistFault, SnowflakeStorage};

verus! {

/// The message collectors that are waiting for an answer. The list does
/// not outlive the process: every start writes it empty.
pub struct ActiveCollectors(pub Vec<u64>);

impl Clone for ActiveCollectors {
    fn clone(&self) -> (copy: Self)
        ensures
            copy.0@ == self.0@,
    {
        ActiveCollectors(self.0.clone())
    }
}

impl Default for ActiveCollectors {
    fn default() -> (collectors: Self)
        ensures
            collectors.0@ == Seq::<u64>::empty(),
    {
        ActiveCollectors(Vec::new())
    }
}

impl BotStateInitialization for ActiveCollectors {
    open spec fn key_text() -> Seq<char> {
        "active_collectors"@
    }

    open spec fn init_rule(probe: Option<PersistFault>) -> Result<InitAction, PersistFault> {
        Ok(InitAction::WriteDefault)
    }

    fn get_key(&self) -> (key: String) {
        "active_collectors".to_string()
    }

    fn init_state_inner(
        &self,
        probe: Option<PersistFault>,
    ) -> (action: Result<InitAction, PersistFault>) {
        Ok(InitAction::WriteDefault)
    }
}

impl SnowflakeStorage for ActiveCollectors {
    open spec fn ids(&self) -> Seq<u64> {
        self.0@
    }

    fn snowflake_found(&self, id: &u64) -> (found: bool) {
        crate::state::position(&self.0, *id).is_some()
    }

    fn push_snowflake(&mut self, id: u64) {
        self.0.push(id);
    }

    fn remove_snowflake(&mut self, index: usize) {
        self.0.remove(index);
    }

    fn snowflakes(&self) -> (ids: &Vec<u64>) {
        &self.0
    }
}

} // verus!
