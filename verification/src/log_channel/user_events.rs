use vstd::prelude::*;
use vstd::string::*;
use crate::config::{channel_id_in, configured_channel};
use crate::embed::{
    author_of, author_view, footer_of, push_field, user_footer, Colour, Embed, EmbedField,
    EmbedView, FieldView,
};
use crate::extensions::{mention_roles, role_mentions, user_mention, InteractiveSnowflakeExt};
use crate::model::{
    keep_outside, roles_outside, ChannelId, Member, Role, RoleId, User, UserId,
};
use crate::utils::discord_cdn::{avatar_url, get_avatar_url};

verus! {

/// What happened to a member of the guild.
#[derive(Debug)]
pub enum UserEvent {
    UserJoin(UserId),
    UserLeave(UserId, Vec<Role>),
    UserBan(UserId),
    UserUnban(UserId),
    UserChange(UserId, UserChangeType),
}

/// What changed about a member.
#[derive(Debug)]
pub enum UserChangeType {
    RolesChanged(RoleState),
    Unknown,
}

/// The roles that a member gained and lost in one change.
#[derive(Debug)]
pub struct RoleState {
    added: Vec<RoleId>,
    removed: Vec<RoleId>,
}

/// The roles gained and lost, as plain values.
pub struct RoleChange {
    pub added: Seq<RoleId>,
    pub removed: Seq<RoleId>,
}

impl View for RoleState {
    type V = RoleChange;

    closed spec fn view(&self) -> RoleChange {
        RoleChange { added: self.added@, removed: self.removed@ }
    }
}

/// The change from one list of roles to another: gained are the new roles
/// that were not held, lost the held ones that are not among the new.
pub open spec fn role_change(old_roles: Seq<RoleId>, new_roles: Seq<RoleId>) -> RoleChange {
    RoleChange {
        added: roles_outside(new_roles, old_roles),
        removed: roles_outside(old_roles, new_roles),
    }
}

impl RoleState {
    /// Makes a change from the roles gained and the roles lost.
    pub fn new(added: Vec<RoleId>, removed: Vec<RoleId>) -> (state: Self)
        ensures
            state@ == (RoleChange { added: added@, removed: removed@ }),
    {
        RoleState { added, removed }
    }

    /// The roles gained.
    pub fn added(&self) -> (roles: &Vec<RoleId>)
        ensures
            roles@ == self@.added,
    {
        &self.added
    }

    /// The roles lost.
    pub fn removed(&self) -> (roles: &Vec<RoleId>)
        ensures
            roles@ == self@.removed,
    {
        &self.removed
    }
}

/// Whether two lists hold the same roles in the same order.
pub fn same_roles(a: &Vec<RoleId>, b: &Vec<RoleId>) -> (same: bool)
    ensures
        same == (a@ == b@),
{
    if a.len() != b.len() {
        return false;
    }
    let mut i: usize = 0;
    while i < a.len()
        invariant
            i <= a.len(),
            a.len() == b.len(),
            forall|j: int| 0 <= j < i ==> a@[j] == b@[j],
        decreases a.len() - i,
    {
        if a[i] != b[i] {
            return false;
        }
        i += 1;
    }
    assert(a@ =~= b@);
    true
}

/// The identifiers of a list of roles, in order.
pub open spec fn role_ids(roles: Seq<Role>) -> Seq<RoleId> {
    roles.map_values(|role: Role| role.id)
}

/// The embed about a member who joined, left, was banned or was let back
/// in: who it is, for how long the account has existed, and what else is
/// told in `extra`.
pub open spec fn member_embed(
    title: Seq<char>,
    colour: Colour,
    mentioned: u64,
    image: Seq<char>,
    user: User,
    account_age: Seq<char>,
    extra: Seq<FieldView>,
) -> EmbedView {
    EmbedView {
        title,
        colour,
        description: Some(user_mention(mentioned)),
        image: Some(image),
        author: Some(author_view(user)),
        fields: seq![FieldView { name: "Account Age"@, value: account_age, inline: true }]
            + extra,
        footer: Some(user_footer(user.id.0)),
        timestamp: true,
    }
}

/// The fields that tell which roles a member gained and lost: one for each
/// of the two lists that is not empty, and the member's mention after them.
pub open spec fn change_fields(change: RoleChange, user: User) -> Seq<FieldView> {
    let gained = if role_mentions(change.added).len() > 0 {
        seq![FieldView { name: "New Roles: "@, value: role_mentions(change.added), inline: false }]
    } else {
        Seq::<FieldView>::empty()
    };
    let lost = if role_mentions(change.removed).len() > 0 {
        seq![
            FieldView {
                name: "Removed Roles: "@,
                value: role_mentions(change.removed),
                inline: false,
            },
        ]
    } else {
        Seq::<FieldView>::empty()
    };
    gained + lost + seq![
        FieldView { name: "Username"@, value: user_mention(user.id.0), inline: false },
    ]
}

/// What is posted to the log channel about an event; nothing for a change
/// that is not understood. `user` is the account that the event is about,
/// as the platform knows it, and `account_age` says for how long it has
/// existed.
pub open spec fn user_embed(event: UserEvent, user: User, account_age: Seq<char>) -> Option<
    EmbedView,
> {
    match event {
        UserEvent::UserJoin(user_id) => Some(
            member_embed(
                "Member Joined"@,
                Colour::Green,
                user_id.0,
                avatar_url(user),
                user,
                account_age,
                Seq::empty(),
            ),
        ),
        UserEvent::UserLeave(_, all_roles) => Some(
            member_embed(
                "Member Left"@,
                Colour::Red,
                user.id.0,
                "https://i.ibb.co/1qyVmzG/left-discord.png"@,
                user,
                account_age,
                seq![
                    FieldView {
                        name: "Roles"@,
                        value: role_mentions(role_ids(all_roles@)),
                        inline: false,
                    },
                ],
            ),
        ),
        UserEvent::UserBan(_) => Some(
            member_embed(
                "Member Banned"@,
                Colour::Red,
                user.id.0,
                "https://i.ibb.co/P4m8YSL/banned.png"@,
                user,
                account_age,
                Seq::empty(),
            ),
        ),
        UserEvent::UserUnban(_) => Some(
            member_embed(
                "Member Unbanned"@,
                Colour::Green,
                user.id.0,
                "https://i.ibb.co/7nqVFKd/unbanned.png"@,
                user,
                account_age,
                Seq::empty(),
            ),
        ),
        UserEvent::UserChange(_, UserChangeType::RolesChanged(role_state)) => Some(
            EmbedView {
                title: "Roles Updated"@,
                colour: Colour::Yellow,
                description: Some("\u{1F504} \u{1F504} \u{1F504}"@),
                image: None,
                author: Some(author_view(user)),
                fields: change_fields(role_state@, user),
                footer: Some(user_footer(user.id.0)),
                timestamp: true,
            },
        ),
        UserEvent::UserChange(_, UserChangeType::Unknown) => None,
    }
}

impl UserEvent {
    /// Makes the embed about a member who joined, left, was banned or was
    /// let back in.
    fn member_log(
        title: &str,
        colour: Colour,
        mentioned: UserId,
        image: String,
        user: &User,
        account_age: &str,
        extra: Option<EmbedField>,
    ) -> (embed: Embed)
        ensures
            embed@ == member_embed(
                title@,
                colour,
                mentioned.0,
                image@,
                *user,
                account_age@,
                match extra {
                    Some(field) => seq![field@],
                    None => Seq::empty(),
                },
            ),
    {
        let mut fields: Vec<EmbedField> = Vec::new();
        push_field(&mut fields, EmbedField::new("Account Age", account_age.to_string(), true));
        match extra {
            Some(field) => {
                push_field(&mut fields, field);
            },
            None => {},
        }
        let embed = Embed {
            title: title.to_string(),
            colour,
            description: Some(mentioned.get_interactive()),
            image: Some(image),
            author: Some(author_of(user)),
            fields,
            footer: Some(footer_of(user.id.0)),
            timestamp: true,
        };
        assert(embed@.fields =~= seq![
            FieldView { name: "Account Age"@, value: account_age@, inline: true },
        ] + match extra {
            Some(field) => seq![field@],
            None => Seq::empty(),
        });
        embed
    }

    /// What is posted about a member who joined the guild.
    pub fn execute_user_joined_guild_log(
        user: &User,
        user_id: UserId,
        account_age: &str,
    ) -> (embed: Embed)
        ensures
            Some(embed@) == user_embed(UserEvent::UserJoin(user_id), *user, account_age@),
    {
        Self::member_log(
            "Member Joined",
            Colour::Green,
            user_id,
            get_avatar_url(user),
            user,
            account_age,
            None,
        )
    }

    /// What is posted about a member who left the guild, with the roles
    /// that the member had.
    pub fn execute_user_left_guild_log(
        user: &User,
        user_id: UserId,
        all_roles: &Vec<Role>,
        account_age: &str,
    ) -> (embed: Embed)
        ensures
            embed@ == member_embed(
                "Member Left"@,
                Colour::Red,
                user.id.0,
                "https://i.ibb.co/1qyVmzG/left-discord.png"@,
                *user,
                account_age@,
                seq![
                    FieldView {
                        name: "Roles"@,
                        value: role_mentions(role_ids(all_roles@)),
                        inline: false,
                    },
                ],
            ),
    {
        let mut ids: Vec<RoleId> = Vec::new();
        let mut i: usize = 0;
        while i < all_roles.len()
            invariant
                i <= all_roles.len(),
                ids@ == role_ids(all_roles@).take(i as int),
            decreases all_roles.len() - i,
        {
            ids.push(all_roles[i].id);
            assert(ids@ =~= role_ids(all_roles@).take(i + 1));
            i += 1;
        }
        assert(role_ids(all_roles@).take(i as int) =~= role_ids(all_roles@));
        let roles = EmbedField::new("Roles", mention_roles(&ids), false);
        Self::member_log(
            "Member Left",
            Colour::Red,
            user.id,
            "https://i.ibb.co/1qyVmzG/left-discord.png".to_string(),
            user,
            account_age,
            Some(roles),
        )
    }

    /// What is posted about a member who was banned.
    pub fn execute_user_ban_guild_log(
        user: &User,
        user_id: UserId,
        account_age: &str,
    ) -> (embed: Embed)
        ensures
            Some(embed@) == user_embed(UserEvent::UserBan(user_id), *user, account_age@),
    {
        Self::member_log(
            "Member Banned",
            Colour::Red,
            user.id,
            "https://i.ibb.co/P4m8YSL/banned.png".to_string(),
            user,
            account_age,
            None,
        )
    }

    /// What is posted about a member whose ban was lifted.
    pub fn execute_user_unban_guild_log(
        user: &User,
        user_id: UserId,
        account_age: &str,
    ) -> (embed: Embed)
        ensures
            Some(embed@) == user_embed(UserEvent::UserUnban(user_id), *user, account_age@),
    {
        Self::member_log(
            "Member Unbanned",
            Colour::Green,
            user.id,
            "https://i.ibb.co/7nqVFKd/unbanned.png".to_string(),
            user,
            account_age,
            None,
        )
    }

    /// What is posted about a member whose roles changed.
    pub fn execute_user_changed_log(
        user: &User,
        user_id: UserId,
        role_state: &RoleState,
    ) -> (embed: Embed)
        ensures
            embed@ == (EmbedView {
                title: "Roles Updated"@,
                colour: Colour::Yellow,
                description: Some("\u{1F504} \u{1F504} \u{1F504}"@),
                image: None,
                author: Some(author_view(*user)),
                fields: change_fields(role_state@, *user),
                footer: Some(user_footer(user.id.0)),
                timestamp: true,
            }),
    {
        let new_roles = mention_roles(role_state.added());
        let old_roles = mention_roles(role_state.removed());
        let mut fields: Vec<EmbedField> = Vec::new();
        if new_roles.as_str().unicode_len() > 0 {
            push_field(&mut fields, EmbedField::new("New Roles: ", new_roles, false));
        }
        if old_roles.as_str().unicode_len() > 0 {
            push_field(&mut fields, EmbedField::new("Removed Roles: ", old_roles, false));
        }
        push_field(&mut fields, EmbedField::new("Username", user.id.get_interactive(), false));
        let embed = Embed {
            title: "Roles Updated".to_string(),
            colour: Colour::Yellow,
            description: Some("\u{1F504} \u{1F504} \u{1F504}".to_string()),
            image: None,
            author: Some(author_of(user)),
            fields,
            footer: Some(footer_of(user.id.0)),
            timestamp: true,
        };
        assert(embed@.fields =~= change_fields(role_state@, *user));
        embed
    }

    /// The channel that member events are posted to, from its configured
    /// identifier; `None` where that names no channel.
    pub fn get_major_event_channel(major_events_channel: &str) -> (channel: Option<ChannelId>)
        ensures
            channel == match channel_id_in(major_events_channel@) {
                Some(id) => Some(ChannelId(id)),
                None => None,
            },
    {
        configured_channel(major_events_channel)
    }

    /// What is posted to the log channel about this event: `None` for a
    /// change that is not understood, about which nothing is posted.
    pub fn post_to_log_channel(&self, user: &User, account_age: &str) -> (embed: Option<Embed>)
        ensures
            match embed {
                Some(embed) => user_embed(*self, *user, account_age@) == Some(embed@),
                None => user_embed(*self, *user, account_age@) is None,
            },
    {
        match self {
            Self::UserJoin(user_id) => Some(
                Self::execute_user_joined_guild_log(user, *user_id, account_age),
            ),
            Self::UserLeave(user_id, all_roles) => Some(
                Self::execute_user_left_guild_log(user, *user_id, all_roles, account_age),
            ),
            Self::UserBan(user_id) => Some(
                Self::execute_user_ban_guild_log(user, *user_id, account_age),
            ),
            Self::UserUnban(user_id) => Some(
                Self::execute_user_unban_guild_log(user, *user_id, account_age),
            ),
            Self::UserChange(user_id, user_change_type) => match user_change_type {
                UserChangeType::RolesChanged(role_state) => Some(
                    Self::execute_user_changed_log(user, *user_id, role_state),
                ),
                UserChangeType::Unknown => None,
            },
        }
    }
}

impl UserChangeType {
    /// Reads a change of a member: a change of roles where the two lists of
    /// roles differ, in what they hold or in its order.
    pub fn new(old_state: &Member, new_state: &Member) -> (change: Self)
        ensures
            match change {
                UserChangeType::RolesChanged(state) => {
                    &&& old_state.roles@ != new_state.roles@
                    &&& state@ == role_change(old_state.roles@, new_state.roles@)
                },
                UserChangeType::Unknown => old_state.roles@ == new_state.roles@,
            },
    {
        if !same_roles(&old_state.roles, &new_state.roles) {
            UserChangeType::RolesChanged(Self::get_role_changes(old_state, new_state))
        } else {
            UserChangeType::Unknown
        }
    }

    /// The roles gained and lost between two states of a member.
    pub fn get_role_changes(old_state: &Member, new_state: &Member) -> (state: RoleState)
        ensures
            state@ == role_change(old_state.roles@, new_state.roles@),
    {
        let new_roles = keep_outside(&new_state.roles, &old_state.roles);
        let old_roles = keep_outside(&old_state.roles, &new_state.roles);
        RoleState::new(new_roles, old_roles)
    }
}

} // verus!
