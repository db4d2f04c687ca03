use guild_keeper::constants::MASTER_ADMIN;
use guild_keeper::state::active_collectors::ActiveCollectors;
use guild_keeper::state::admins::Admins;
use guild_keeper::state::games::Games;
use guild_keeper::state::guild_apply::GuildApply;
use guild_keeper::state::role_backups::RoleBackups;
use guild_keeper::state::t_rooms::TRooms;
use guild_keeper::state::{
    lazy_seed, position, BotStateInitialization, InitAction, PersistFault, SnowflakeStorage,
    StoreError,
};

#[test]
fn admin_list_starts_with_the_master_admin() {
    let admins = Admins::default();
    assert_eq!(MASTER_ADMIN, 42);
    assert_eq!(admins.0, vec![42]);
    assert!(admins.snowflake_found(&42));
    assert!(!admins.snowflake_found(&99));
}

#[test]
fn admin_scenario_add_add_remove() {
    let mut admins = Admins::default();
    assert_eq!(admins.0, vec![42]);
    assert!(admins.add(99));
    assert_eq!(admins.0, vec![42, 99]);
    assert!(!admins.add(99));
    assert_eq!(admins.0, vec![42, 99]);
    assert!(admins.remove(42));
    assert_eq!(admins.0, vec![99]);
}

#[test]
fn add_twice_then_remove_twice() {
    let mut games = Games::default();
    assert!(games.0.is_empty());
    assert!(games.add(7));
    assert!(!games.add(7));
    assert_eq!(games.0, vec![7]);
    assert!(games.remove(7));
    assert!(!games.remove(7));
    assert!(games.0.is_empty());
}

#[test]
fn contains_follows_add_and_remove() {
    let mut games = Games(vec![1, 2, 3]);
    assert!(!games.snowflake_found(&9));
    assert!(games.add(9));
    assert!(games.snowflake_found(&9));
    assert!(games.remove(9));
    assert!(!games.snowflake_found(&9));
    assert_eq!(games.0, vec![1, 2, 3]);
}

#[test]
fn remove_takes_the_first_occurrence_and_keeps_the_order() {
    let mut games = Games(vec![5, 6, 5, 7]);
    assert!(games.remove(5));
    assert_eq!(games.0, vec![6, 5, 7]);
    assert!(games.snowflake_found(&5));
    assert!(games.remove(6));
    assert_eq!(games.0, vec![5, 7]);
}

#[test]
fn remove_of_an_absent_identifier_changes_nothing() {
    let mut games = Games(vec![1, 2]);
    assert!(!games.remove(3));
    assert_eq!(games.0, vec![1, 2]);
}

#[test]
fn snowflakes_hands_out_the_list_in_order() {
    let games = Games(vec![3, 1, 2]);
    assert_eq!(games.snowflakes(), &vec![3, 1, 2]);
    let mut copy = games.clone();
    copy.push_snowflake(8);
    copy.remove_snowflake(0);
    assert_eq!(copy.0, vec![1, 2, 8]);
    assert_eq!(games.0, vec![3, 1, 2]);
}

#[test]
fn position_is_the_first_index() {
    assert_eq!(position(&vec![4, 5, 4], 4), Some(0));
    assert_eq!(position(&vec![4, 5, 4], 5), Some(1));
    assert_eq!(position(&vec![4, 5, 4], 6), None);
    assert_eq!(position(&vec![], 6), None);
}

#[test]
fn keys_are_fixed_per_collection() {
    assert_eq!(Admins::default().get_key(), "admins");
    assert_eq!(Games::default().get_key(), "games");
    assert_eq!(ActiveCollectors::default().get_key(), "active_collectors");
}

#[test]
fn default_is_written_only_when_the_key_is_missing() {
    let admins = Admins::default();
    assert_eq!(admins.init_state_inner(None), Ok(InitAction::Keep));
    assert_eq!(admins.init_state_inner(Some(PersistFault::Open)), Ok(InitAction::WriteDefault));
    assert_eq!(lazy_seed(Some(PersistFault::Open)), Ok(InitAction::WriteDefault));
    assert_eq!(lazy_seed(None), Ok(InitAction::Keep));
}

#[test]
fn a_load_that_fails_for_another_reason_is_handed_on() {
    let faults = [
        PersistFault::InvalidKey,
        PersistFault::CreateFolder,
        PersistFault::ListFolder,
        PersistFault::ListName,
        PersistFault::RemoveFolder,
        PersistFault::RemoveFile,
        PersistFault::Serialize,
        PersistFault::Deserialize,
    ];
    for fault in faults {
        assert_eq!(lazy_seed(Some(fault)), Err(fault));
        assert_eq!(Admins::default().init_state_inner(Some(fault)), Err(fault));
        assert_eq!(Games::default().init_state_inner(Some(fault)), Err(fault));
        assert_eq!(GuildApply::default().init_state_inner(Some(fault)), Err(fault));
        assert_eq!(RoleBackups::default().init_state_inner(Some(fault)), Err(fault));
        assert_eq!(TRooms::default().init_state_inner(Some(fault)), Err(fault));
    }
}

#[test]
fn every_lazily_seeded_collection_follows_the_same_rule() {
    assert_eq!(Games::default().init_state_inner(None), Ok(InitAction::Keep));
    assert_eq!(GuildApply::default().init_state_inner(None), Ok(InitAction::Keep));
    assert_eq!(RoleBackups::default().init_state_inner(None), Ok(InitAction::Keep));
    assert_eq!(TRooms::default().init_state_inner(None), Ok(InitAction::Keep));
    let missing = Some(PersistFault::Open);
    assert_eq!(Games::default().init_state_inner(missing), Ok(InitAction::WriteDefault));
    assert_eq!(GuildApply::default().init_state_inner(missing), Ok(InitAction::WriteDefault));
    assert_eq!(RoleBackups::default().init_state_inner(missing), Ok(InitAction::WriteDefault));
    assert_eq!(TRooms::default().init_state_inner(missing), Ok(InitAction::WriteDefault));
}

#[test]
fn collectors_are_reset_on_every_start() {
    let collectors = ActiveCollectors::default();
    assert!(collectors.0.is_empty());
    assert_eq!(collectors.init_state_inner(None), Ok(InitAction::WriteDefault));
    assert_eq!(
        collectors.init_state_inner(Some(PersistFault::Open)),
        Ok(InitAction::WriteDefault)
    );
    assert_eq!(
        collectors.init_state_inner(Some(PersistFault::Serialize)),
        Ok(InitAction::WriteDefault)
    );
}

#[test]
fn faults_fall_into_three_classes() {
    assert_eq!(PersistFault::Open.class(), StoreError::NotFound);
    assert_eq!(PersistFault::Deserialize.class(), StoreError::Deserialize);
    assert_eq!(PersistFault::InvalidKey.class(), StoreError::CollaboratorUnavailable);
    assert_eq!(PersistFault::CreateFolder.class(), StoreError::CollaboratorUnavailable);
    assert_eq!(PersistFault::ListFolder.class(), StoreError::CollaboratorUnavailable);
    assert_eq!(PersistFault::ListName.class(), StoreError::CollaboratorUnavailable);
    assert_eq!(PersistFault::RemoveFolder.class(), StoreError::CollaboratorUnavailable);
    assert_eq!(PersistFault::RemoveFile.class(), StoreError::CollaboratorUnavailable);
    assert_eq!(PersistFault::Serialize.class(), StoreError::CollaboratorUnavailable);
}
