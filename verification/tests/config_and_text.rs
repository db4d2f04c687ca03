use guild_keeper::config::{
    configured_channel, configured_role, pair_room_ids, split_list, ConfigError,
};
use guild_keeper::model::{ChannelId, RoleId};
use guild_keeper::state::t_rooms::TRooms;
use guild_keeper::text::{chars_of, decimal_text, digit_of, parse_digits, parse_u64, same_text};

fn summary(rooms: &TRooms) -> Vec<(u64, u64, bool)> {
    rooms.0.iter().map(|room| (room.role_id(), room.channel_id(), room.is_open())).collect()
}

fn texts(items: &[&str]) -> Vec<String> {
    items.iter().map(|item| item.to_string()).collect()
}

#[test]
fn registry_is_seeded_from_the_two_lists() {
    let rooms = TRooms::from_lists("10,20", "100,200").expect("lists of equal length");
    assert_eq!(summary(&rooms), vec![(10, 100, true), (20, 200, true)]);
}

#[test]
fn lists_of_different_lengths_are_refused() {
    assert_eq!(TRooms::from_lists("10,20", "100").err(), Some(ConfigError::LengthMismatch));
    assert_eq!(TRooms::from_lists("10", "100,200").err(), Some(ConfigError::LengthMismatch));
    assert_eq!(TRooms::from_lists("", "100,200").err(), Some(ConfigError::LengthMismatch));
}

#[test]
fn length_is_checked_before_any_identifier_is_read() {
    assert_eq!(TRooms::from_lists("x,y", "100").err(), Some(ConfigError::LengthMismatch));
    assert_eq!(
        pair_room_ids(&texts(&["x", "y"]), &texts(&["1"])),
        Err(ConfigError::LengthMismatch)
    );
}

#[test]
fn unreadable_identifier_is_refused() {
    assert_eq!(TRooms::from_lists("10,abc", "100,200").err(), Some(ConfigError::InvalidId));
    assert_eq!(TRooms::from_lists("10,20", "100,").err(), Some(ConfigError::InvalidId));
    assert_eq!(TRooms::from_lists("", "").err(), Some(ConfigError::InvalidId));
    let pairs = vec![("1".to_string(), "-2".to_string())];
    assert_eq!(TRooms::from_config(&pairs).err(), Some(ConfigError::InvalidId));
}

#[test]
fn refusals_say_what_is_wrong() {
    assert_eq!(
        ConfigError::LengthMismatch.to_string(),
        "T_ROLES and T_ROOMS are not the same length..."
    );
    assert_eq!(ConfigError::InvalidId.to_string(), "invalid id format");
}

#[test]
fn empty_list_of_pairs_seeds_an_empty_registry() {
    let rooms = TRooms::from_config(&Vec::new()).expect("nothing to refuse");
    assert!(rooms.0.is_empty());
}

#[test]
fn identifiers_may_be_written_as_mentions() {
    let pairs = vec![("<@&7>".to_string(), "+8".to_string())];
    let rooms = TRooms::from_config(&pairs).expect("both halves name identifiers");
    assert_eq!(summary(&rooms), vec![(7, 8, true)]);
    assert_eq!(configured_role("<@&123>"), Some(RoleId(123)));
    assert_eq!(configured_role("123"), Some(RoleId(123)));
    assert_eq!(configured_role("<@&>"), None);
    assert_eq!(configured_role("<@&12"), None);
    assert_eq!(configured_role("<#123>"), None);
    assert_eq!(configured_role(""), None);
    assert_eq!(configured_channel("<#55>"), Some(ChannelId(55)));
    assert_eq!(configured_channel("55"), Some(ChannelId(55)));
    assert_eq!(configured_channel("<@&55>"), None);
    assert_eq!(configured_channel("<#>"), None);
    assert_eq!(configured_channel("18446744073709551616"), None);
}

#[test]
fn lists_are_split_at_every_comma() {
    assert_eq!(split_list("10,20"), texts(&["10", "20"]));
    assert_eq!(split_list("10"), texts(&["10"]));
    assert_eq!(split_list(""), texts(&[""]));
    assert_eq!(split_list(","), texts(&["", ""]));
    assert_eq!(split_list("a,,b,"), texts(&["a", "", "b", ""]));
    assert_eq!(split_list(" 1, 2"), texts(&[" 1", " 2"]));
}

#[test]
fn pairs_keep_the_order_of_the_lists() {
    let pairs = pair_room_ids(&texts(&["a", "b"]), &texts(&["c", "d"])).expect("equal length");
    assert_eq!(
        pairs,
        vec![("a".to_string(), "c".to_string()), ("b".to_string(), "d".to_string())]
    );
    assert_eq!(pair_room_ids(&Vec::new(), &Vec::new()), Ok(Vec::new()));
}

#[test]
fn numbers_are_written_in_decimal() {
    assert_eq!(decimal_text(0), "0");
    assert_eq!(decimal_text(7), "7");
    assert_eq!(decimal_text(10), "10");
    assert_eq!(decimal_text(1234567890), "1234567890");
    assert_eq!(decimal_text(u64::MAX), "18446744073709551615");
}

#[test]
fn numbers_are_read_as_the_standard_library_reads_them() {
    let cases = [
        "0", "7", "007", "+5", "+", "", "-5", "++1", "1 ", " 1", "12a", "18446744073709551615",
        "18446744073709551616", "99999999999999999999999", "+18446744073709551615", "1_000",
        "\u{661}", "__invalid__",
    ];
    for case in cases {
        assert_eq!(parse_u64(case), case.parse::<u64>().ok(), "{}", case);
    }
    assert_eq!(parse_u64("42"), Some(42));
    assert_eq!(parse_u64("+42"), Some(42));
    assert_eq!(parse_u64("18446744073709551616"), None);
}

#[test]
fn digits_are_read_from_a_place_on() {
    let chars = chars_of("ab12");
    assert_eq!(chars, vec!['a', 'b', '1', '2']);
    assert_eq!(parse_digits(&chars, 2), Some(12));
    assert_eq!(parse_digits(&chars, 1), None);
    assert_eq!(parse_digits(&chars, 4), None);
    assert_eq!(digit_of('7'), Some(7));
    assert_eq!(digit_of('x'), None);
    assert!(same_text("abc", "abc"));
    assert!(!same_text("abc", "abd"));
    assert!(!same_text("abc", "ab"));
}
