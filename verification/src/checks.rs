use vstd::prelude::*;
use crate::constants::MASTER_ADMIN;
use crate::model::{User, UserId};
use crate::state::admins::Admins;
use crate::state::SnowflakeStorage;

verus! {

/// Whether the author of a command is on the admin list. `Err` holds what
/// an author who is not on it is told.
pub fn is_on_admin_list(admins: &Admins, command_user: UserId) -> (allowed: Result<bool, String>)
    ensures
        allowed is Ok <==> admins.0@.contains(command_user.0),
        allowed is Ok ==> allowed->Ok_0,
        allowed is Err ==> allowed->Err_0@ == "You are not authorized to use this command..."@,
{
    if !admins.snowflake_found(&command_user.0) {
        return Err("You are not authorized to use this command...".to_string());
    }
    Ok(true)
}

/// Whether the account is the one that bootstraps the admin list.
pub fn is_master_admin(user: &User) -> (master: bool)
    ensures
        master == (user.id.0 == MASTER_ADMIN),
{
    user.id.0 == MASTER_ADMIN
}

} // verus!
