use guild_keeper::state::guild_apply::GuildApply;
use guild_keeper::state::role_backups::RoleBackups;
use guild_keeper::state::{BotStateInitialization, SnowflakeHashmapStorage};

fn entries(apply: &GuildApply) -> Vec<(String, u64)> {
    apply.all().clone()
}

#[test]
fn pair_is_added_once() {
    let mut apply = GuildApply::default();
    assert!(apply.add("archeage".to_string(), 1));
    assert_eq!(entries(&apply), vec![("archeage".to_string(), 1)]);
    assert!(apply.snowflake_key_found(&"archeage".to_string()));
    assert!(apply.snowflake_value_found(&1));
}

#[test]
fn known_key_is_refused_even_with_a_new_value() {
    let mut apply = GuildApply::default();
    assert!(apply.add("archeage".to_string(), 1));
    assert!(!apply.add("archeage".to_string(), 2));
    assert_eq!(entries(&apply), vec![("archeage".to_string(), 1)]);
}

#[test]
fn known_value_is_refused_even_with_a_new_key() {
    let mut apply = GuildApply::default();
    assert!(apply.add("archeage".to_string(), 1));
    assert!(!apply.add("lost ark".to_string(), 1));
    assert_eq!(entries(&apply), vec![("archeage".to_string(), 1)]);
    assert!(!apply.snowflake_key_found(&"lost ark".to_string()));
}

#[test]
fn removing_a_key_frees_key_and_value() {
    let mut apply = GuildApply::default();
    assert!(apply.add("a".to_string(), 1));
    assert!(apply.add("b".to_string(), 2));
    assert!(apply.remove("a".to_string()));
    assert!(!apply.remove("a".to_string()));
    assert_eq!(entries(&apply), vec![("b".to_string(), 2)]);
    assert!(!apply.snowflake_value_found(&1));
    assert!(apply.add("c".to_string(), 1));
    assert_eq!(entries(&apply), vec![("b".to_string(), 2), ("c".to_string(), 1)]);
}

#[test]
fn push_overwrites_the_value_of_a_known_key() {
    let mut apply = GuildApply::default();
    apply.push_kv_inner("a".to_string(), 1);
    apply.push_kv_inner("b".to_string(), 2);
    apply.push_kv_inner("a".to_string(), 3);
    assert_eq!(entries(&apply), vec![("a".to_string(), 3), ("b".to_string(), 2)]);
    apply.remove_inner("zzz".to_string());
    apply.remove_inner("b".to_string());
    assert_eq!(entries(&apply), vec![("a".to_string(), 3)]);
    let copy = apply.clone();
    assert_eq!(entries(&copy), vec![("a".to_string(), 3)]);
    assert_eq!(apply.get_key(), "guild_apply");
}

#[test]
fn roles_are_backed_up_once_per_member() {
    let mut backups = RoleBackups::default();
    assert!(backups.add(5, &vec![1, 2, 3]));
    assert!(!backups.add(5, &vec![9]));
    assert_eq!(backups.0.get(&5), Some(&vec![1, 2, 3]));
    assert_eq!(backups.0.len(), 1);
}

#[test]
fn backup_is_handed_back_once() {
    let mut backups = RoleBackups::default();
    assert!(backups.add(5, &vec![1, 2, 3]));
    assert!(backups.add(6, &vec![]));
    assert_eq!(backups.remove(5), Some(vec![1, 2, 3]));
    assert_eq!(backups.remove(5), None);
    assert_eq!(backups.remove(6), Some(vec![]));
    assert!(backups.0.is_empty());
    assert_eq!(backups.get_key(), "role_backup");
}
