use guild_keeper::state::t_rooms::{Room, TRooms};
use guild_keeper::state::BotStateInitialization;

fn summary(rooms: &TRooms) -> Vec<(u64, u64, bool)> {
    rooms.0.iter().map(|room| (room.role_id(), room.channel_id(), room.is_open())).collect()
}

fn two_rooms() -> TRooms {
    let mut rooms = TRooms::default();
    rooms.add(Room::new(10, 100, true));
    rooms.add(Room::new(20, 200, true));
    rooms
}

#[test]
fn room_keeps_what_it_was_made_with() {
    let room = Room::new(10, 100, true);
    assert_eq!(room.role_id(), 10);
    assert_eq!(room.channel_id(), 100);
    assert!(room.is_open());
    let closed = Room::new(11, 101, false);
    assert!(!closed.is_open());
}

#[test]
fn toggle_flips_only_the_flag() {
    let mut room = Room::new(10, 100, true);
    room.toggle_open();
    assert_eq!((room.role_id(), room.channel_id(), room.is_open()), (10, 100, false));
    room.toggle_open();
    assert_eq!((room.role_id(), room.channel_id(), room.is_open()), (10, 100, true));
}

#[test]
fn two_rooms_are_claimed_in_order_and_the_third_claim_fails() {
    let mut rooms = two_rooms();
    assert_eq!(rooms.find_open_room(), Some((10, 100)));
    assert_eq!(summary(&rooms), vec![(10, 100, false), (20, 200, true)]);
    assert_eq!(rooms.find_open_room(), Some((20, 200)));
    assert_eq!(summary(&rooms), vec![(10, 100, false), (20, 200, false)]);
    assert_eq!(rooms.find_open_room(), None);
    assert_eq!(summary(&rooms), vec![(10, 100, false), (20, 200, false)]);
}

#[test]
fn a_reopened_room_is_claimed_again() {
    let mut rooms = two_rooms();
    rooms.find_open_room();
    rooms.find_open_room();
    {
        let room = rooms.find_room(100).expect("the channel belongs to a room");
        assert_eq!(room.role_id(), 10);
        room.toggle_open();
    }
    assert_eq!(summary(&rooms), vec![(10, 100, true), (20, 200, false)]);
    assert_eq!(rooms.find_open_room(), Some((10, 100)));
    assert_eq!(rooms.find_open_room(), None);
}

#[test]
fn find_room_knows_only_registered_channels() {
    let mut rooms = two_rooms();
    assert!(rooms.find_room(300).is_none());
    assert!(rooms.find_room(10).is_none());
    assert_eq!(rooms.find_room(200).map(|room| room.role_id()), Some(20));
    assert_eq!(summary(&rooms), vec![(10, 100, true), (20, 200, true)]);
}

#[test]
fn find_room_takes_the_first_room_of_a_channel() {
    let mut rooms = TRooms::default();
    rooms.add(Room::new(1, 50, false));
    rooms.add(Room::new(2, 50, false));
    rooms.find_room(50).expect("registered").toggle_open();
    assert_eq!(summary(&rooms), vec![(1, 50, true), (2, 50, false)]);
}

#[test]
fn claim_skips_closed_rooms() {
    let mut rooms = TRooms::default();
    rooms.add(Room::new(1, 11, false));
    rooms.add(Room::new(2, 22, true));
    rooms.add(Room::new(3, 33, true));
    assert_eq!(rooms.find_open_room(), Some((2, 22)));
    assert_eq!(summary(&rooms), vec![(1, 11, false), (2, 22, false), (3, 33, true)]);
}

#[test]
fn empty_registry_has_no_room_to_claim() {
    let mut rooms = TRooms::default();
    assert_eq!(rooms.find_open_room(), None);
    assert!(rooms.find_room(1).is_none());
    assert_eq!(rooms.get_key(), "t_rooms");
}

#[test]
fn default_room_is_closed() {
    let room = Room::default();
    assert_eq!((room.role_id(), room.channel_id(), room.is_open()), (0, 0, false));
    let copy = Room::new(4, 5, true).clone();
    assert_eq!((copy.role_id(), copy.channel_id(), copy.is_open()), (4, 5, true));
}
