use vstd::prelude::*;

verus! {

/// The identifier of an account.
#[derive(Clone, Copy, PartialEq, Eq, Structural, Debug, Hash)]
pub struct UserId(pub u64);

/// The identifier of a role.
#[derive(Clone, Copy, PartialEq, Eq, Structural, Debug, Hash)]
pub struct RoleId(pub u64);

/// The identifier of a channel.
#[derive(Clone, Copy, PartialEq, Eq, Structural, Debug, Hash)]
pub struct ChannelId(pub u64);

/// What the rules read of an account.
#[derive(Debug)]
pub struct User {
    pub id: UserId,
    pub name: String,
    /// The hash of the avatar image, where the account has one.
    pub avatar: Option<String>,
    pub bot: bool,
}

/// What the rules read of a member of the guild.
#[derive(Debug)]
pub struct Member {
    pub user: User,
    pub roles: Vec<RoleId>,
}

/// What the rules read of a role.
#[derive(Debug)]
pub struct Role {
    pub id: RoleId,
    pub name: String,
}

/// What the rules read of a member's presence in voice channels.
#[derive(Debug)]
pub struct VoiceState {
    pub channel_id: Option<ChannelId>,
    pub user_id: UserId,
}

/// Whether `role` stands in `roles`.
pub fn has_role(roles: &Vec<RoleId>, role: RoleId) -> (found: bool)
    ensures
        found == roles@.contains(role),
{
    let mut i: usize = 0;
    while i < roles.len()
        invariant
            i <= roles.len(),
            forall|j: int| 0 <= j < i ==> roles@[j] != role,
        decreases roles.len() - i,
    {
        if roles[i] == role {
            return true;
        }
        i += 1;
    }
    false
}

/// The roles of `roles` that do not stand in `others`, in their order.
pub open spec fn roles_outside(roles: Seq<RoleId>, others: Seq<RoleId>) -> Seq<RoleId> {
    roles.filter(|role: RoleId| !others.contains(role))
}

/// The roles of `roles` that stand in `others` too, in their order.
pub open spec fn roles_within(roles: Seq<RoleId>, others: Seq<RoleId>) -> Seq<RoleId> {
    roles.filter(|role: RoleId| others.contains(role))
}

/// Keeps the roles of `roles` that do not stand in `others`.
pub fn keep_outside(roles: &Vec<RoleId>, others: &Vec<RoleId>) -> (kept: Vec<RoleId>)
    ensures
        kept@ == roles_outside(roles@, others@),
{
    let ghost keep = |role: RoleId| !others@.contains(role);
    let mut kept: Vec<RoleId> = Vec::new();
    let mut i: usize = 0;
    proof {
        reveal(Seq::filter);
        assert(roles@.take(0) =~= Seq::<RoleId>::empty());
    }
    while i < roles.len()
        invariant
            i <= roles.len(),
            keep == |role: RoleId| !others@.contains(role),
            kept@ == roles@.take(i as int).filter(keep),
        decreases roles.len() - i,
    {
        let role = roles[i];
        proof {
            reveal(Seq::filter);
            assert(roles@.take(i + 1).drop_last() =~= roles@.take(i as int));
        }
        if !has_role(others, role) {
            kept.push(role);
        }
        i += 1;
    }
    assert(roles@.take(i as int) =~= roles@);
    kept
}

/// Keeps the roles of `roles` that stand in `others` too.
pub fn keep_within(roles: &Vec<RoleId>, others: &Vec<RoleId>) -> (kept: Vec<RoleId>)
    ensures
        kept@ == roles_within(roles@, others@),
{
    let ghost keep = |role: RoleId| others@.contains(role);
    let mut kept: Vec<RoleId> = Vec::new();
    let mut i: usize = 0;
    proof {
        reveal(Seq::filter);
        assert(roles@.take(0) =~= Seq::<RoleId>::empty());
    }
    while i < roles.len()
        invariant
            i <= roles.len(),
            keep == |role: RoleId| others@.contains(role),
            kept@ == roles@.take(i as int).filter(keep),
        decreases roles.len() - i,
    {
        let role = roles[i];
        proof {
            reveal(Seq::filter);
            assert(roles@.take(i + 1).drop_last() =~= roles@.take(i as int));
        }
        if has_role(others, role) {
            kept.push(role);
        }
        i += 1;
    }
    assert(roles@.take(i as int) =~= roles@);
    kept
}

} // verus!
