use guild_keeper::checks::{is_master_admin, is_on_admin_list};
use guild_keeper::data_enums::CustomId;
use guild_keeper::embed::Colour;
use guild_keeper::extensions::{mention_roles, InteractiveSnowflakeExt};
use guild_keeper::log_channel::user_events::{same_roles, UserChangeType, UserEvent};
use guild_keeper::log_channel::voice_events::VoiceEvent;
use guild_keeper::model::{
    has_role, keep_outside, keep_within, ChannelId, Member, Role, RoleId, User, UserId, VoiceState,
};
use guild_keeper::state::admins::Admins;
use guild_keeper::utils::discord_cdn::get_avatar_url;

fn user(id: u64, avatar: Option<&str>) -> User {
    User { id: UserId(id), name: "ada".to_string(), avatar: avatar.map(str::to_string), bot: false }
}

fn member(id: u64, roles: &[u64]) -> Member {
    Member { user: user(id, None), roles: roles.iter().map(|role| RoleId(*role)).collect() }
}

fn state(channel: Option<u64>, user: u64) -> VoiceState {
    VoiceState { channel_id: channel.map(ChannelId), user_id: UserId(user) }
}

#[test]
fn mentions_follow_the_kind_of_identifier() {
    assert_eq!(UserId(5).get_interactive(), "<@5>");
    assert_eq!(RoleId(6).get_interactive(), "<@&6>");
    assert_eq!(ChannelId(7).get_interactive(), "<#7>");
    assert_eq!(user(18446744073709551615, None).get_interactive(), "<@18446744073709551615>");
    assert_eq!(mention_roles(&vec![]), "");
    assert_eq!(mention_roles(&vec![RoleId(1)]), "<@&1>");
    assert_eq!(mention_roles(&vec![RoleId(1), RoleId(20), RoleId(3)]), "<@&1> <@&20> <@&3>");
}

#[test]
fn avatar_url_is_empty_without_an_avatar() {
    assert_eq!(get_avatar_url(&user(9, None)), "");
    assert_eq!(
        get_avatar_url(&user(9, Some("abc"))),
        "https://cdn.discordapp.com/avatars/9/abc.png"
    );
}

#[test]
fn master_admin_is_told_apart() {
    assert!(is_master_admin(&user(42, None)));
    assert!(!is_master_admin(&user(43, None)));
    let admins = Admins::default();
    assert_eq!(is_on_admin_list(&admins, UserId(42)), Ok(true));
    assert_eq!(
        is_on_admin_list(&admins, UserId(1)),
        Err("You are not authorized to use this command...".to_string())
    );
}

#[test]
fn custom_ids_are_read_and_written() {
    let all = [
        (CustomId::PickGamesAdd, "pick-games-add"),
        (CustomId::PickGamesRemove, "pick-games-remove"),
        (CustomId::PickGamesAddExecute, "pick-games-add-execute"),
        (CustomId::PickGamesRemoveExecute, "pick-games-remove-execute"),
        (CustomId::GuildApply, "guild-apply"),
        (CustomId::Invalid, "__invalid__"),
    ];
    for (id, text) in all {
        assert_eq!(CustomId::new(text), id);
        assert_eq!(id.to_string(), text);
    }
    assert_eq!(CustomId::new(""), CustomId::Invalid);
    assert_eq!(CustomId::new("pick-games"), CustomId::Invalid);
    assert_eq!(CustomId::new("Pick-Games-Add"), CustomId::Invalid);
    assert_eq!(CustomId::default(), CustomId::Invalid);
}

#[test]
fn voice_changes_are_read() {
    assert_eq!(
        VoiceEvent::new(&None, &state(Some(1), 9)),
        VoiceEvent::UserJoinedChannel(ChannelId(1), UserId(9))
    );
    assert_eq!(
        VoiceEvent::new(&Some(state(Some(1), 9)), &state(None, 9)),
        VoiceEvent::UserLeftChannel(ChannelId(1), UserId(9))
    );
    assert_eq!(
        VoiceEvent::new(&Some(state(Some(1), 9)), &state(Some(2), 9)),
        VoiceEvent::UserMovedChannel(ChannelId(1), ChannelId(2), UserId(9))
    );
    assert_eq!(VoiceEvent::new(&Some(state(Some(1), 9)), &state(Some(1), 9)), VoiceEvent::Unknown);
    assert_eq!(VoiceEvent::new(&None, &state(None, 9)), VoiceEvent::Unknown);
    assert_eq!(VoiceEvent::new(&Some(state(None, 9)), &state(Some(2), 9)), VoiceEvent::Unknown);
    assert_eq!(VoiceEvent::new(&Some(state(None, 9)), &state(None, 9)), VoiceEvent::Unknown);
    assert!(VoiceEvent::is_user_joined(&None, &state(Some(1), 9)));
    assert!(VoiceEvent::is_user_left(&Some(state(Some(1), 9)), &state(None, 9)));
    assert!(VoiceEvent::is_user_moved(&Some(state(Some(1), 9)), &state(Some(2), 9)));
    assert!(!VoiceEvent::is_user_moved(&Some(state(Some(1), 9)), &state(Some(1), 9)));
}

#[test]
fn voice_events_are_posted() {
    let who = user(9, Some("abc"));
    let joined = VoiceEvent::UserJoinedChannel(ChannelId(1), UserId(9))
        .post_to_log_channel(&who)
        .expect("posted");
    assert_eq!(joined.title, "Joined Voice Chat");
    assert_eq!(joined.colour, Colour::Green);
    assert_eq!(joined.description.as_deref(), Some("Channel: <#1>"));
    assert_eq!(joined.footer.as_deref(), Some("User ID: 9"));
    assert!(joined.timestamp);
    assert_eq!(joined.fields.len(), 1);
    assert_eq!(joined.fields[0].name, "Display Name");
    assert_eq!(joined.fields[0].value, "<@9>");
    assert!(!joined.fields[0].inline);
    let author = joined.author.expect("author");
    assert_eq!(author.name.as_deref(), Some("ada"));
    assert_eq!(author.icon_url, "https://cdn.discordapp.com/avatars/9/abc.png");
    let left = VoiceEvent::UserLeftChannel(ChannelId(1), UserId(9))
        .post_to_log_channel(&who)
        .expect("posted");
    assert_eq!((left.title.as_str(), left.colour), ("Left Voice Chat", Colour::Red));
    let moved = VoiceEvent::UserMovedChannel(ChannelId(1), ChannelId(2), UserId(9))
        .post_to_log_channel(&who)
        .expect("posted");
    assert_eq!((moved.title.as_str(), moved.colour), ("Moved Voice Chat", Colour::Yellow));
    assert_eq!(moved.description, None);
    let fields: Vec<(&str, &str, bool)> = moved
        .fields
        .iter()
        .map(|field| (field.name.as_str(), field.value.as_str(), field.inline))
        .collect();
    assert_eq!(
        fields,
        vec![("Left", "<#1>", true), ("Joined", "<#2>", true), ("Display Name", "<@9>", false)]
    );
    assert!(VoiceEvent::Unknown.post_to_log_channel(&who).is_none());
    assert_eq!(VoiceEvent::get_minor_event_channel("77"), Some(ChannelId(77)));
    assert_eq!(VoiceEvent::get_minor_event_channel("nope"), None);
}

#[test]
fn role_changes_are_read() {
    let before = member(1, &[1, 2, 3]);
    let after = member(1, &[2, 3, 4, 5]);
    match UserChangeType::new(&before, &after) {
        UserChangeType::RolesChanged(change) => {
            assert_eq!(change.added(), &vec![RoleId(4), RoleId(5)]);
            assert_eq!(change.removed(), &vec![RoleId(1)]);
        }
        UserChangeType::Unknown => panic!("the roles differ"),
    }
    assert!(matches!(UserChangeType::new(&before, &member(1, &[1, 2, 3])), UserChangeType::Unknown));
    match UserChangeType::new(&before, &member(1, &[3, 2, 1])) {
        UserChangeType::RolesChanged(change) => {
            assert!(change.added().is_empty());
            assert!(change.removed().is_empty());
        }
        UserChangeType::Unknown => panic!("the order differs"),
    }
    assert!(same_roles(&vec![RoleId(1)], &vec![RoleId(1)]));
    assert!(!same_roles(&vec![RoleId(1)], &vec![RoleId(1), RoleId(1)]));
    assert!(has_role(&vec![RoleId(1)], RoleId(1)));
    assert_eq!(keep_outside(&vec![RoleId(1), RoleId(2)], &vec![RoleId(2)]), vec![RoleId(1)]);
    assert_eq!(keep_within(&vec![RoleId(1), RoleId(2)], &vec![RoleId(2)]), vec![RoleId(2)]);
}

#[test]
fn member_events_are_posted() {
    let who = user(9, Some("abc"));
    let age = "1 years 2 months 3 days";
    let joined = UserEvent::UserJoin(UserId(9)).post_to_log_channel(&who, age).expect("posted");
    assert_eq!((joined.title.as_str(), joined.colour), ("Member Joined", Colour::Green));
    assert_eq!(joined.description.as_deref(), Some("<@9>"));
    assert_eq!(joined.image.as_deref(), Some("https://cdn.discordapp.com/avatars/9/abc.png"));
    assert_eq!(joined.fields.len(), 1);
    assert_eq!(joined.fields[0].name, "Account Age");
    assert_eq!(joined.fields[0].value, age);
    assert!(joined.fields[0].inline);
    assert_eq!(joined.footer.as_deref(), Some("User ID: 9"));
    let roles = vec![
        Role { id: RoleId(1), name: "a".to_string() },
        Role { id: RoleId(2), name: "b".to_string() },
    ];
    let left = UserEvent::UserLeave(UserId(9), roles).post_to_log_channel(&who, age).expect("posted");
    assert_eq!((left.title.as_str(), left.colour), ("Member Left", Colour::Red));
    assert_eq!(left.image.as_deref(), Some("https://i.ibb.co/1qyVmzG/left-discord.png"));
    assert_eq!(left.fields.len(), 2);
    assert_eq!(left.fields[1].name, "Roles");
    assert_eq!(left.fields[1].value, "<@&1> <@&2>");
    let banned = UserEvent::UserBan(UserId(9)).post_to_log_channel(&who, age).expect("posted");
    assert_eq!((banned.title.as_str(), banned.colour), ("Member Banned", Colour::Red));
    assert_eq!(banned.image.as_deref(), Some("https://i.ibb.co/P4m8YSL/banned.png"));
    let unbanned = UserEvent::UserUnban(UserId(9)).post_to_log_channel(&who, age).expect("posted");
    assert_eq!((unbanned.title.as_str(), unbanned.colour), ("Member Unbanned", Colour::Green));
    assert_eq!(unbanned.image.as_deref(), Some("https://i.ibb.co/7nqVFKd/unbanned.png"));
    assert!(UserEvent::UserChange(UserId(9), UserChangeType::Unknown)
        .post_to_log_channel(&who, age)
        .is_none());
    assert_eq!(UserEvent::get_major_event_channel("<#3>"), Some(ChannelId(3)));
}

#[test]
fn role_changes_are_posted_with_the_lists_that_are_not_empty() {
    let who = user(9, None);
    let change = UserChangeType::new(&member(9, &[1]), &member(9, &[1, 2]));
    let posted = UserEvent::UserChange(UserId(9), change).post_to_log_channel(&who, "").expect("posted");
    assert_eq!((posted.title.as_str(), posted.colour), ("Roles Updated", Colour::Yellow));
    assert_eq!(posted.description.as_deref(), Some("\u{1F504} \u{1F504} \u{1F504}"));
    let fields: Vec<(&str, &str)> =
        posted.fields.iter().map(|field| (field.name.as_str(), field.value.as_str())).collect();
    assert_eq!(fields, vec![("New Roles: ", "<@&2>"), ("Username", "<@9>")]);
    let change = UserChangeType::new(&member(9, &[1, 3]), &member(9, &[2]));
    let posted = UserEvent::UserChange(UserId(9), change).post_to_log_channel(&who, "").expect("posted");
    let fields: Vec<(&str, &str)> =
        posted.fields.iter().map(|field| (field.name.as_str(), field.value.as_str())).collect();
    assert_eq!(
        fields,
        vec![("New Roles: ", "<@&2>"), ("Removed Roles: ", "<@&1> <@&3>"), ("Username", "<@9>")]
    );
}
