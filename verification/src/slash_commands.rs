use vstd::prelude::*;
use vstd::string::*;
use crate::constants::MASTER_ADMIN;
use crate::data_enums::CustomId;
use crate::embed::{concat, Colour};
use crate::extensions::{role_lines, user_lines};
use crate::state::admins::Admins;
use crate::state::games::Games;
use crate::state::guild_apply::{entry_lines, plain_entries, GuildApply};
use crate::state::t_rooms::{after_toggle, first_with_channel, TRooms};
use crate::state::{
    adds, adds_pair, removes, with_id, without_id, SnowflakeHashmapStorage, SnowflakeStorage,
};
use crate::text::{decimal, push_decimal};

verus! {

/// What a command that changes a collection ends in: whether the collection
/// changed and is to be written back, and what the user is told.
#[derive(Debug)]
pub struct Outcome {
    pub save: bool,
    pub reply: String,
}

/// What is answered to the command that asks whether the bot is there.
pub fn ping() -> (reply: String)
    ensures
        reply@ == "I'm online!"@,
{
    "I'm online!".to_string()
}

/// Puts an account on the admin list.
pub fn add_admin(admins: &mut Admins, user_id: u64) -> (outcome: Outcome)
    ensures
        outcome.save == adds(old(admins).0@, user_id),
        final(admins).0@ == with_id(old(admins).0@, user_id),
        outcome.reply@ == if outcome.save {
            "User was added to the Admin list!"@
        } else {
            "Admin is already registered..."@
        },
{
    let successful = admins.add(user_id);
    if successful {
        Outcome { save: true, reply: "User was added to the Admin list!".to_string() }
    } else {
        Outcome { save: false, reply: "Admin is already registered...".to_string() }
    }
}

/// What is answered at once to a request to take an account off the admin
/// list: a refusal for the master admin, nothing for any other account.
pub fn remove_admin_refusal(user_id: u64) -> (refusal: Option<String>)
    ensures
        refusal is Some <==> user_id == MASTER_ADMIN,
        refusal is Some ==> refusal->0@ == "Can not remove master admin!"@,
{
    if user_id == MASTER_ADMIN {
        Some("Can not remove master admin!".to_string())
    } else {
        None
    }
}

/// Takes an account off the admin list.
pub fn remove_admin(admins: &mut Admins, user_id: u64) -> (outcome: Outcome)
    ensures
        outcome.save == removes(old(admins).0@, user_id),
        final(admins).0@ == without_id(old(admins).0@, user_id),
        outcome.reply@ == if outcome.save {
            "User was remove from the Admin list!"@
        } else {
            "User could not be found on the Admin list..."@
        },
{
    let successful = admins.remove(user_id);
    if successful {
        Outcome { save: true, reply: "User was remove from the Admin list!".to_string() }
    } else {
        Outcome { save: false, reply: "User could not be found on the Admin list...".to_string() }
    }
}

/// Shows the admin list.
pub fn list_admins(admins: &Admins) -> (reply: String)
    ensures
        reply@ == if admins.0@.len() == 0 {
            "No admins found"@
        } else {
            user_lines(admins.0@)
        },
{
    if admins.0.len() == 0 {
        "No admins found".to_string()
    } else {
        admins.to_string()
    }
}

/// Puts a role on the list of games.
pub fn add_game(games: &mut Games, role_id: u64) -> (outcome: Outcome)
    ensures
        outcome.save == adds(old(games).0@, role_id),
        final(games).0@ == with_id(old(games).0@, role_id),
        outcome.reply@ == if outcome.save {
            "Game was added to the game list!"@
        } else {
            "Game is already registered..."@
        },
{
    let successful = games.add(role_id);
    if successful {
        Outcome { save: true, reply: "Game was added to the game list!".to_string() }
    } else {
        Outcome { save: false, reply: "Game is already registered...".to_string() }
    }
}

/// Takes a role off the list of games.
pub fn remove_game(games: &mut Games, role_id: u64) -> (outcome: Outcome)
    ensures
        outcome.save == removes(old(games).0@, role_id),
        final(games).0@ == without_id(old(games).0@, role_id),
        outcome.reply@ == if outcome.save {
            "Game was remove from the games list!"@
        } else {
            "Game could not be found on the games list..."@
        },
{
    let successful = games.remove(role_id);
    if successful {
        Outcome { save: true, reply: "Game was remove from the games list!".to_string() }
    } else {
        Outcome { save: false, reply: "Game could not be found on the games list...".to_string() }
    }
}

/// Shows the list of games.
pub fn list_games(games: &Games) -> (reply: String)
    ensures
        reply@ == if games.0@.len() == 0 {
            "No games found"@
        } else {
            role_lines(games.0@)
        },
{
    if games.0.len() == 0 {
        "No games found".to_string()
    } else {
        games.to_string()
    }
}

/// Whether the command that deletes messages takes one more message, having
/// `collected` of the `amount` it was asked for.
pub fn prune_takes_more(collected: usize, amount: usize) -> (more: bool)
    ensures
        more == (collected < amount),
{
    collected < amount
}

/// What the command that deletes messages answers in the end.
pub fn prune(amount: usize) -> (reply: String)
    ensures
        reply@ == decimal(amount as nat) + " message(s) deleted!"@,
{
    let mut reply = String::new();
    push_decimal(&mut reply, amount as u64);
    reply.append(" message(s) deleted!");
    assert(reply@ =~= decimal(amount as nat) + " message(s) deleted!"@);
    reply
}

/// How a button looks.
#[derive(Clone, Copy, PartialEq, Eq, Structural, Debug)]
pub enum ButtonStyle {
    Success,
    Danger,
}

/// A button below a message.
#[derive(Debug)]
pub struct Button {
    pub custom_id: CustomId,
    pub label: String,
    pub style: ButtonStyle,
}

/// The message through which members pick their games.
#[derive(Debug)]
pub struct GamesPanel {
    pub content: String,
    pub title: String,
    pub colour: Colour,
    pub description: String,
    pub add: Button,
    pub remove: Button,
}

/// What the panel tells members to do.
pub open spec fn instructions() -> Seq<char> {
    ":green_circle: **Add** - Press to get a dropdown of all available game roles that you don't already have, select the ones you want.\n\n"@
        + ":red_circle: **Remove** - Press to get a dropdown of all game roles currently assigned to you, select the ones you want to remove.\n\n"@
        + "**[IMPORTANT]\n\nDropdowns are meant for ONE TIME USE ONLY. Please press \"Dismiss message\" when you are done. \n\nThese temporary messages DO NOT automatically update to reflect role changes, you must press the buttons AGAIN to make any changes in the future!**"@
}

/// Makes the message through which members pick their games.
pub fn pick_games_menu() -> (panel: GamesPanel)
    ensures
        panel.content@ == "~ Pick Your Games ~"@,
        panel.title@ == "Instructions"@,
        panel.colour == Colour::Black,
        panel.description@ == instructions(),
        panel.add.custom_id == CustomId::PickGamesAdd,
        panel.add.label@ == "Add"@,
        panel.add.style == ButtonStyle::Success,
        panel.remove.custom_id == CustomId::PickGamesRemove,
        panel.remove.label@ == "Remove"@,
        panel.remove.style == ButtonStyle::Danger,
{
    let mut instructions = String::new();
    instructions.append(":green_circle: **Add** - Press to get a dropdown of all available game roles that you don't already have, select the ones you want.\n\n");
    instructions.append(":red_circle: **Remove** - Press to get a dropdown of all game roles currently assigned to you, select the ones you want to remove.\n\n");
    instructions.append("**[IMPORTANT]\n\nDropdowns are meant for ONE TIME USE ONLY. Please press \"Dismiss message\" when you are done. \n\nThese temporary messages DO NOT automatically update to reflect role changes, you must press the buttons AGAIN to make any changes in the future!**");
    assert(instructions@ =~= self::instructions());
    GamesPanel {
        content: "~ Pick Your Games ~".to_string(),
        title: "Instructions".to_string(),
        colour: Colour::Black,
        description: instructions,
        add: Button {
            custom_id: CustomId::PickGamesAdd,
            label: "Add".to_string(),
            style: ButtonStyle::Success,
        },
        remove: Button {
            custom_id: CustomId::PickGamesRemove,
            label: "Remove".to_string(),
            style: ButtonStyle::Danger,
        },
    }
}

/// Flips the flag of the room that a channel belongs to, which reopens a
/// room that was claimed. A channel of no room changes nothing.
pub fn unlock_triggered_channel(t_rooms: &mut TRooms, target_channel: u64) -> (outcome: Outcome)
    ensures
        outcome.save == (first_with_channel(old(t_rooms)@, target_channel) < old(t_rooms)@.len()),
        final(t_rooms)@ == after_toggle(old(t_rooms)@, target_channel),
        outcome.reply@ == if outcome.save {
            "Room unlocked!!"@
        } else {
            "This is NOT a triggered room!!"@
        },
{
    proof {
        crate::state::t_rooms::lemma_first_with_channel(t_rooms@, target_channel);
    }
    let room = t_rooms.find_room(target_channel);
    match room {
        Some(room) => {
            room.toggle_open();
            Outcome { save: true, reply: "Room unlocked!!".to_string() }
        },
        None => Outcome { save: false, reply: "This is NOT a triggered room!!".to_string() },
    }
}

/// Registers a game, by its label, with the channel that takes
/// applications for it.
pub fn add_guild_application(
    guild_apply: &mut GuildApply,
    game_name: String,
    channel_id: u64,
) -> (outcome: Outcome)
    ensures
        outcome.save == adds_pair(old(guild_apply)@, game_name@, channel_id),
        final(guild_apply)@ == if outcome.save {
            old(guild_apply)@.insert(game_name@, channel_id)
        } else {
            old(guild_apply)@
        },
        outcome.reply@ == if outcome.save {
            game_name@ + " was added to the apply list!"@
        } else {
            "Key and / or value is already registered"@
        },
{
    let successful = guild_apply.add(game_name.clone(), channel_id);
    if successful {
        Outcome { save: true, reply: concat(game_name.as_str(), " was added to the apply list!") }
    } else {
        Outcome { save: false, reply: "Key and / or value is already registered".to_string() }
    }
}

/// Shows the games that take applications.
pub fn list_guild_application(guild_apply: &GuildApply) -> (reply: String)
    ensures
        reply@ == if guild_apply.all_entries().len() == 0 {
            "Guild application list empty"@
        } else {
            entry_lines(plain_entries(guild_apply.all_entries()))
        },
{
    if guild_apply.all().len() == 0 {
        "Guild application list empty".to_string()
    } else {
        guild_apply.to_string()
    }
}

/// Takes a game off the games that take applications.
pub fn remove_guild_application(
    guild_apply: &mut GuildApply,
    game_name: String,
) -> (outcome: Outcome)
    ensures
        outcome.save == old(guild_apply)@.contains_key(game_name@),
        final(guild_apply)@ == old(guild_apply)@.remove(game_name@),
        outcome.reply@ == if outcome.save {
            game_name@ + " was removed from the apply list!"@
        } else {
            game_name@ + " could not be found in the apply list..."@
        },
{
    let successful = guild_apply.remove(game_name.clone());
    if successful {
        Outcome {
            save: true,
            reply: concat(game_name.as_str(), " was removed from the apply list!"),
        }
    } else {
        Outcome {
            save: false,
            reply: concat(game_name.as_str(), " could not be found in the apply list..."),
        }
    }
}

} // verus!
