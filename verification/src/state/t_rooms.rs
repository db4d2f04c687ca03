use vstd::prelude::*;
use crate::config::{
    pair_room_ids, parse_role_id, plain_pairs, role_id_in, split_list, comma_pieces, paired,
    ConfigError,
};
use crate::state::{seed_when_missing, lazy_seed, BotStateInitialization, InitAction, PersistFault};

verus! {

/// What a room is, as a plain value: the role that lets a member in, the
/// channel they are led to, and whether the room is free.
pub struct RoomState {
    pub role_id: u64,
    pub channel_id: u64,
    pub is_open: bool,
}

impl RoomState {
    /// The same room with its flag flipped.
    pub open spec fn toggled(self) -> RoomState {
        RoomState { role_id: self.role_id, channel_id: self.channel_id, is_open: !self.is_open }
    }
}

/// A quarantine room. Role and channel are fixed when the room is made;
/// only the flag changes afterwards.
#[derive(Debug)]
pub struct Room {
    role_id: u64,
    channel_id: u64,
    is_open: bool,
}

impl View for Room {
    type V = RoomState;

    closed spec fn view(&self) -> RoomState {
        RoomState { role_id: self.role_id, channel_id: self.channel_id, is_open: self.is_open }
    }
}

impl Clone for Room {
    fn clone(&self) -> (copy: Self)
        ensures
            copy@ == self@,
    {
        Room { role_id: self.role_id, channel_id: self.channel_id, is_open: self.is_open }
    }
}

impl Default for Room {
    fn default() -> (room: Self)
        ensures
            room@ == (RoomState { role_id: 0, channel_id: 0, is_open: false }),
    {
        Room { role_id: 0, channel_id: 0, is_open: false }
    }
}

impl Room {
    /// Makes a room of a role and a channel.
    pub fn new(role_id: u64, channel_id: u64, is_open: bool) -> (room: Self)
        ensures
            room@ == (RoomState { role_id, channel_id, is_open }),
    {
        Room { role_id, is_open, channel_id }
    }

    /// Flips the flag: an open room becomes closed, a closed one open.
    pub fn toggle_open(&mut self)
        ensures
            final(self)@ == old(self)@.toggled(),
    {
        self.is_open = !self.is_open;
    }

    /// The role that lets a member into the room.
    pub fn role_id(&self) -> (id: u64)
        ensures
            id == self@.role_id,
    {
        self.role_id
    }

    /// The channel of the room.
    pub fn channel_id(&self) -> (id: u64)
        ensures
            id == self@.channel_id,
    {
        self.channel_id
    }

    /// Whether the room is free.
    pub fn is_open(&self) -> (open: bool)
        ensures
            open == self@.is_open,
    {
        self.is_open
    }
}

/// The first place in `rooms` that holds an open room, or the length of
/// `rooms` where every room is closed.
pub open spec fn first_open(rooms: Seq<RoomState>) -> int
    decreases rooms.len(),
{
    if rooms.len() == 0 {
        0
    } else if rooms[0].is_open {
        0
    } else {
        1 + first_open(rooms.drop_first())
    }
}

/// The first place in `rooms` whose channel is `channel_id`, or the length
/// of `rooms` where no room has that channel.
pub open spec fn first_with_channel(rooms: Seq<RoomState>, channel_id: u64) -> int
    decreases rooms.len(),
{
    if rooms.len() == 0 {
        0
    } else if rooms[0].channel_id == channel_id {
        0
    } else {
        1 + first_with_channel(rooms.drop_first(), channel_id)
    }
}

/// The registry after a claim: the first open room is closed, every other
/// room is as before. Unchanged where no room is open.
pub open spec fn after_claim(rooms: Seq<RoomState>) -> Seq<RoomState> {
    let i = first_open(rooms);
    if i < rooms.len() {
        rooms.update(i, rooms[i].toggled())
    } else {
        rooms
    }
}

/// What a claim hands out: role and channel of the first open room.
pub open spec fn claimed(rooms: Seq<RoomState>) -> Option<(u64, u64)> {
    let i = first_open(rooms);
    if i < rooms.len() {
        Some((rooms[i].role_id, rooms[i].channel_id))
    } else {
        None
    }
}

/// The registry after the room of `channel_id` had its flag flipped.
/// Unchanged where no room has that channel.
pub open spec fn after_toggle(rooms: Seq<RoomState>, channel_id: u64) -> Seq<RoomState> {
    let i = first_with_channel(rooms, channel_id);
    if i < rooms.len() {
        rooms.update(i, rooms[i].toggled())
    } else {
        rooms
    }
}

/// What [`first_open`] is: a place within the registry or its length, with
/// only closed rooms before it and an open room at it.
pub proof fn lemma_first_open(rooms: Seq<RoomState>)
    ensures
        0 <= first_open(rooms) <= rooms.len(),
        forall|j: int| 0 <= j < first_open(rooms) ==> !rooms[j].is_open,
        first_open(rooms) < rooms.len() ==> rooms[first_open(rooms)].is_open,
    decreases rooms.len(),
{
    if rooms.len() == 0 {
    } else if rooms[0].is_open {
    } else {
        let rest = rooms.drop_first();
        lemma_first_open(rest);
        let k = first_open(rest);
        assert forall|j: int| 0 <= j < 1 + k implies !rooms[j].is_open by {
            if j > 0 {
                assert(rest[j - 1] == rooms[j]);
            }
        }
        if k < rest.len() {
            assert(rest[k] == rooms[k + 1]);
        }
    }
}

/// What [`first_with_channel`] is: a place within the registry or its
/// length, with no room of the channel before it and one at it.
pub proof fn lemma_first_with_channel(rooms: Seq<RoomState>, channel_id: u64)
    ensures
        0 <= first_with_channel(rooms, channel_id) <= rooms.len(),
        forall|j: int|
            0 <= j < first_with_channel(rooms, channel_id) ==> rooms[j].channel_id != channel_id,
        first_with_channel(rooms, channel_id) < rooms.len() ==> rooms[first_with_channel(
            rooms,
            channel_id,
        )].channel_id == channel_id,
    decreases rooms.len(),
{
    if rooms.len() == 0 {
    } else if rooms[0].channel_id == channel_id {
    } else {
        let rest = rooms.drop_first();
        lemma_first_with_channel(rest, channel_id);
        let k = first_with_channel(rest, channel_id);
        assert forall|j: int| 0 <= j < 1 + k implies rooms[j].channel_id != channel_id by {
            if j > 0 {
                assert(rest[j - 1] == rooms[j]);
            }
        }
        if k < rest.len() {
            assert(rest[k] == rooms[k + 1]);
        }
    }
}

/// Any place that holds an open room and has only closed rooms before it is
/// the first open place.
pub proof fn lemma_first_open_is(rooms: Seq<RoomState>, i: int)
    requires
        0 <= i <= rooms.len(),
        forall|j: int| 0 <= j < i ==> !rooms[j].is_open,
        i < rooms.len() ==> rooms[i].is_open,
    ensures
        first_open(rooms) == i,
{
    lemma_first_open(rooms);
    let k = first_open(rooms);
    if k < i {
        assert(!rooms[k].is_open);
    } else if i < k {
        assert(!rooms[i].is_open);
    }
}

/// Any place that holds a room of the channel and has none before it is the
/// first such place.
pub proof fn lemma_first_with_channel_is(rooms: Seq<RoomState>, channel_id: u64, i: int)
    requires
        0 <= i <= rooms.len(),
        forall|j: int| 0 <= j < i ==> rooms[j].channel_id != channel_id,
        i < rooms.len() ==> rooms[i].channel_id == channel_id,
    ensures
        first_with_channel(rooms, channel_id) == i,
{
    lemma_first_with_channel(rooms, channel_id);
    let k = first_with_channel(rooms, channel_id);
    if k < i {
        assert(rooms[k].channel_id != channel_id);
    } else if i < k {
        assert(rooms[i].channel_id != channel_id);
    }
}

/// A claim hands out nothing exactly when every room is closed; otherwise
/// it hands out a room that was open and is closed afterwards, and leaves
/// every other room as it was.
pub proof fn lemma_claim_closes_what_it_returns(rooms: Seq<RoomState>)
    ensures
        claimed(rooms) is None <==> (forall|j: int| 0 <= j < rooms.len() ==> !rooms[j].is_open),
        claimed(rooms) is None ==> after_claim(rooms) == rooms,
        claimed(rooms) is Some ==> {
            let i = first_open(rooms);
            &&& 0 <= i < rooms.len()
            &&& rooms[i].is_open
            &&& claimed(rooms) == Some((rooms[i].role_id, rooms[i].channel_id))
            &&& after_claim(rooms).len() == rooms.len()
            &&& after_claim(rooms)[i] == rooms[i].toggled()
            &&& forall|j: int| 0 <= j < rooms.len() && j != i ==> after_claim(rooms)[j] == rooms[j]
        },
{
    lemma_first_open(rooms);
}

/// Two rooms seeded open are claimed in stored order and are both closed
/// afterwards; a third claim finds no room and changes nothing.
pub proof fn lemma_two_rooms_claimed_in_order(r1: u64, c1: u64, r2: u64, c2: u64)
    ensures
        ({
            let seeded = seq![
                RoomState { role_id: r1, channel_id: c1, is_open: true },
                RoomState { role_id: r2, channel_id: c2, is_open: true },
            ];
            let once = after_claim(seeded);
            let twice = after_claim(once);
            &&& claimed(seeded) == Some((r1, c1))
            &&& claimed(once) == Some((r2, c2))
            &&& twice == seq![
                RoomState { role_id: r1, channel_id: c1, is_open: false },
                RoomState { role_id: r2, channel_id: c2, is_open: false },
            ]
            &&& claimed(twice) is None
            &&& after_claim(twice) == twice
        }),
{
    let seeded = seq![
        RoomState { role_id: r1, channel_id: c1, is_open: true },
        RoomState { role_id: r2, channel_id: c2, is_open: true },
    ];
    lemma_first_open_is(seeded, 0);
    let once = after_claim(seeded);
    lemma_first_open_is(once, 1);
    let twice = after_claim(once);
    lemma_first_open_is(twice, 2);
    assert(twice =~= seq![
        RoomState { role_id: r1, channel_id: c1, is_open: false },
        RoomState { role_id: r2, channel_id: c2, is_open: false },
    ]);
}

/// Once both rooms are claimed, flipping the flag of the room found by the
/// first channel reopens that room, and the next claim hands it out again.
pub proof fn lemma_reopened_room_is_claimed_again(r1: u64, c1: u64, r2: u64, c2: u64)
    ensures
        ({
            let full = seq![
                RoomState { role_id: r1, channel_id: c1, is_open: false },
                RoomState { role_id: r2, channel_id: c2, is_open: false },
            ];
            let reopened = after_toggle(full, c1);
            &&& first_with_channel(full, c1) == 0
            &&& reopened == seq![
                RoomState { role_id: r1, channel_id: c1, is_open: true },
                RoomState { role_id: r2, channel_id: c2, is_open: false },
            ]
            &&& claimed(reopened) == Some((r1, c1))
            &&& after_claim(reopened) == full
        }),
{
    let full = seq![
        RoomState { role_id: r1, channel_id: c1, is_open: false },
        RoomState { role_id: r2, channel_id: c2, is_open: false },
    ];
    lemma_first_with_channel_is(full, c1, 0);
    let reopened = after_toggle(full, c1);
    assert(reopened =~= seq![
        RoomState { role_id: r1, channel_id: c1, is_open: true },
        RoomState { role_id: r2, channel_id: c2, is_open: false },
    ]);
    lemma_first_open_is(reopened, 0);
    assert(after_claim(reopened) =~= full);
}

/// No claim and no flip of a flag changes the number of rooms, or the role
/// or the channel of any room.
pub proof fn lemma_rooms_keep_their_identity(rooms: Seq<RoomState>, channel_id: u64, j: int)
    requires
        0 <= j < rooms.len(),
    ensures
        after_claim(rooms).len() == rooms.len(),
        after_claim(rooms)[j].role_id == rooms[j].role_id,
        after_claim(rooms)[j].channel_id == rooms[j].channel_id,
        after_toggle(rooms, channel_id).len() == rooms.len(),
        after_toggle(rooms, channel_id)[j].role_id == rooms[j].role_id,
        after_toggle(rooms, channel_id)[j].channel_id == rooms[j].channel_id,
{
    lemma_first_open(rooms);
    lemma_first_with_channel(rooms, channel_id);
}

/// Whether both halves of every pair name an identifier.
pub open spec fn ids_readable(t_ids: Seq<(Seq<char>, Seq<char>)>) -> bool {
    forall|i: int|
        0 <= i < t_ids.len() ==> role_id_in(#[trigger] t_ids[i].0) is Some && role_id_in(
            t_ids[i].1,
        ) is Some
}

/// The rooms that configured pairs of role and channel stand for: one open
/// room per pair, in the order of the pairs.
pub open spec fn seeded_rooms(t_ids: Seq<(Seq<char>, Seq<char>)>) -> Seq<RoomState> {
    Seq::new(
        t_ids.len(),
        |i: int|
            RoomState {
                role_id: role_id_in(t_ids[i].0)->0,
                channel_id: role_id_in(t_ids[i].1)->0,
                is_open: true,
            },
    )
}

/// What becomes of two configured lists, one of roles and one of channels.
pub open spec fn pool_of(t_roles: Seq<char>, t_rooms: Seq<char>) -> Result<
    Seq<RoomState>,
    ConfigError,
> {
    let roles = comma_pieces(t_roles);
    let rooms = comma_pieces(t_rooms);
    if roles.len() != rooms.len() {
        Err(ConfigError::LengthMismatch)
    } else if !ids_readable(paired(roles, rooms)) {
        Err(ConfigError::InvalidId)
    } else {
        Ok(seeded_rooms(paired(roles, rooms)))
    }
}

/// The pool of quarantine rooms, in the order in which they are handed out.
pub struct TRooms(pub Vec<Room>);

impl View for TRooms {
    type V = Seq<RoomState>;

    open spec fn view(&self) -> Seq<RoomState> {
        self.0@.map_values(|room: Room| room@)
    }
}

impl Clone for TRooms {
    fn clone(&self) -> (copy: Self)
        ensures
            copy@ == self@,
    {
        let mut rooms: Vec<Room> = Vec::new();
        let mut i: usize = 0;
        while i < self.0.len()
            invariant
                i <= self.0.len(),
                rooms@.len() == i,
                forall|j: int| 0 <= j < i ==> rooms@[j]@ == self.0@[j]@,
            decreases self.0.len() - i,
        {
            rooms.push(self.0[i].clone());
            i += 1;
        }
        let copy = TRooms(rooms);
        assert(copy@ =~= self@);
        copy
    }
}

impl Default for TRooms {
    fn default() -> (rooms: Self)
        ensures
            rooms@ == Seq::<RoomState>::empty(),
    {
        TRooms(Vec::new())
    }
}

impl TRooms {
    /// Claims the first open room: closes it and returns its role and
    /// channel. Returns `None`, and changes nothing, where every room is
    /// closed. The caller writes the registry back after a claim.
    pub fn find_open_room(&mut self) -> (claim: Option<(u64, u64)>)
        ensures
            claim == claimed(old(self)@),
            final(self)@ == after_claim(old(self)@),
    {
        let mut index: usize = 0;
        while index < self.0.len()
            invariant
                index <= self.0.len(),
                *self == *old(self),
                forall|j: int| 0 <= j < index ==> !self@[j].is_open,
            ensures
                index < self.0.len() ==> self@[index as int].is_open,
            decreases self.0.len() - index,
        {
            if self.0[index].is_open() {
                break ;
            }
            index += 1;
        }
        proof {
            lemma_first_open_is(self@, index as int);
        }
        if index < self.0.len() {
            let rooms = &mut self.0;
            rooms[index].toggle_open();
            let claim = (self.0[index].role_id(), self.0[index].channel_id());
            assert(self@ =~= after_claim(old(self)@));
            Some(claim)
        } else {
            None
        }
    }

    /// Finds the room of a channel. The handle that comes back stands for
    /// the first room with that channel; what the caller does to it is done
    /// to the registry, and nothing else in the registry changes.
    pub fn find_room(&mut self, target_room: u64) -> (room: Option<&mut Room>)
        ensures
            match room {
                Some(handle) => {
                    let i = first_with_channel(old(self)@, target_room);
                    &&& i < old(self)@.len()
                    &&& *handle == old(self).0@[i]
                    &&& final(self).0@ == old(self).0@.update(i, *final(handle))
                    &&& final(self)@ == old(self)@.update(i, final(handle)@)
                },
                None => {
                    &&& first_with_channel(old(self)@, target_room) == old(self)@.len()
                    &&& *final(self) == *old(self)
                },
            },
    {
        let mut index: usize = 0;
        while index < self.0.len()
            invariant
                index <= self.0.len(),
                *self == *old(self),
                forall|j: int| 0 <= j < index ==> self@[j].channel_id != target_room,
            ensures
                index < self.0.len() ==> self@[index as int].channel_id == target_room,
            decreases self.0.len() - index,
        {
            if self.0[index].channel_id() == target_room {
                break ;
            }
            index += 1;
        }
        proof {
            lemma_first_with_channel_is(self@, target_room, index as int);
        }
        if index < self.0.len() {
            Some(&mut self.0[index])
        } else {
            None
        }
    }

    /// Makes the registry that the configured pairs stand for, every room
    /// open. A pair of which one half names no identifier is refused, and no
    /// registry is made.
    pub fn from_config(t_ids: &Vec<(String, String)>) -> (pool: Result<TRooms, ConfigError>)
        ensures
            pool is Ok <==> ids_readable(plain_pairs(t_ids@)),
            pool is Ok ==> pool->Ok_0@ == seeded_rooms(plain_pairs(t_ids@)),
            pool is Err ==> pool->Err_0 == ConfigError::InvalidId,
    {
        let ghost pairs = plain_pairs(t_ids@);
        let mut rooms = TRooms(Vec::new());
        let mut i: usize = 0;
        while i < t_ids.len()
            invariant
                i <= t_ids.len(),
                pairs == plain_pairs(t_ids@),
                rooms@.len() == i,
                forall|j: int|
                    0 <= j < i ==> role_id_in(#[trigger] pairs[j].0) is Some && role_id_in(
                        pairs[j].1,
                    ) is Some,
                forall|j: int| 0 <= j < i ==> rooms@[j] == seeded_rooms(pairs)[j],
            decreases t_ids.len() - i,
        {
            let role = parse_role_id(t_ids[i].0.as_str());
            let channel = parse_role_id(t_ids[i].1.as_str());
            assert(pairs[i as int].0 == t_ids@[i as int].0@);
            assert(pairs[i as int].1 == t_ids@[i as int].1@);
            match (role, channel) {
                (Some(role_id), Some(channel_id)) => {
                    rooms.add(Room::new(role_id, channel_id, true));
                },
                _ => {
                    return Err(ConfigError::InvalidId);
                },
            }
            i += 1;
        }
        assert(rooms@ =~= seeded_rooms(pairs));
        Ok(rooms)
    }

    /// Makes the registry from the two configured lists, each a text of
    /// identifiers with commas between them. Lists of different lengths are
    /// refused before any identifier is read and any room is made.
    pub fn from_lists(t_roles: &str, t_rooms: &str) -> (pool: Result<TRooms, ConfigError>)
        ensures
            match pool {
                Ok(rooms) => pool_of(t_roles@, t_rooms@) == Ok::<Seq<RoomState>, ConfigError>(
                    rooms@,
                ),
                Err(error) => pool_of(t_roles@, t_rooms@) == Err::<Seq<RoomState>, ConfigError>(
                    error,
                ),
            },
    {
        let roles = split_list(t_roles);
        let rooms = split_list(t_rooms);
        match pair_room_ids(&roles, &rooms) {
            Ok(t_ids) => Self::from_config(&t_ids),
            Err(error) => Err(error),
        }
    }

    /// Appends a room to the registry.
    pub fn add(&mut self, room: Room)
        ensures
            final(self).0@ == old(self).0@.push(room),
    {
        self.0.push(room);
    }
}

impl BotStateInitialization for TRooms {
    open spec fn key_text() -> Seq<char> {
        "t_rooms"@
    }

    open spec fn init_rule(probe: Option<PersistFault>) -> Result<InitAction, PersistFault> {
        seed_when_missing(probe)
    }

    fn get_key(&self) -> (key: String) {
        "t_rooms".to_string()
    }

    fn init_state_inner(
        &self,
        probe: Option<PersistFault>,
    ) -> (action: Result<InitAction, PersistFault>) {
        lazy_seed(probe)
    }
}

} // verus!
