use vstd::prelude::*;

verus! {

/// The account that bootstraps the admin list: it is on the list from the
/// first start, and no command takes action against it.
pub const MASTER_ADMIN: u64 = 42;

} // verus!
