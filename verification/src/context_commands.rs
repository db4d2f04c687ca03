use vstd::prelude::*;
use crate::checks::is_master_admin;
use crate::constants::MASTER_ADMIN;
use crate::embed::{
    concat, push_field, AuthorView, Colour, Embed, EmbedAuthor, EmbedField, EmbedView, FieldView,
};
use crate::extensions::{user_mention, InteractiveSnowflakeExt};
use crate::model::{User, UserId};
use crate::utils::discord_cdn::{avatar_url, get_avatar_url};

verus! {

/// What is answered at once to an application to the guild that cannot go
/// on: members apply for themselves, and only while they hold the role that
/// marks them as due to apply. `None` where the application goes on.
pub open spec fn apply_refusal(selected_self: bool, has_role: bool) -> Option<Seq<char>> {
    if !selected_self {
        Some("Select YOURSELF!"@)
    } else if !has_role {
        Some(
            "Application already sent OR you never selected a supported game while joining"@,
        )
    } else {
        None
    }
}

/// The request that is posted for the officers of the guild.
pub open spec fn application_request(user: User, nickname: Seq<char>) -> EmbedView {
    EmbedView {
        title: "Guild Application Request"@,
        colour: Colour::DarkPurple,
        description: Some("Please DONT delete this after promoting or rejecting an applicant"@),
        image: None,
        author: Some(AuthorView { name: None, icon_url: avatar_url(user) }),
        fields: seq![
            FieldView { name: "Discord Username"@, value: user.name@, inline: true },
            FieldView { name: "Display Name"@, value: user_mention(user.id.0), inline: true },
            FieldView { name: "In-Game Name"@, value: nickname, inline: false },
        ],
        footer: None,
        timestamp: false,
    }
}

/// Whether an application to the guild goes on: the member must have
/// selected themselves. `has_role` is asked of the platform only after
/// that, so the first refusal is decided without it.
pub fn archeage_apply_selected(user: &User, author: &User) -> (refusal: Option<String>)
    ensures
        refusal is Some <==> user.id != author.id,
        refusal is Some ==> Some(refusal->0@) == apply_refusal(false, true),
{
    if user.id != author.id {
        Some("Select YOURSELF!".to_string())
    } else {
        None
    }
}

/// Whether an application of a member for themselves goes on: the member
/// must hold the role that marks them as due to apply.
pub fn archeage_apply_due(has_role: bool) -> (refusal: Option<String>)
    ensures
        match refusal {
            Some(text) => Some(text@) == apply_refusal(true, has_role),
            None => apply_refusal(true, has_role) is None,
        },
{
    if !has_role {
        Some(
            "Application already sent OR you never selected a supported game while joining".to_string(),
        )
    } else {
        None
    }
}

/// What comes of the form that asks for the name in the game: the request
/// that is posted with the reply that says so, or the reply that nothing
/// was sent where the form came back empty.
pub fn archeage_apply(user: &User, in_game_name: Option<&str>) -> (request: (Option<Embed>, String))
    ensures
        match in_game_name {
            Some(nickname) => {
                &&& request.0 is Some
                &&& request.0->0@ == application_request(*user, nickname@)
                &&& request.1@ == "Guild Application was sent!"@
            },
            None => request.0 is None && request.1@ == "No information was sent..."@,
        },
{
    match in_game_name {
        Some(nickname) => {
            let mut fields: Vec<EmbedField> = Vec::new();
            push_field(&mut fields, EmbedField::new("Discord Username", user.name.clone(), true));
            push_field(&mut fields, EmbedField::new("Display Name", user.id.get_interactive(), true));
            push_field(&mut fields, EmbedField::new("In-Game Name", nickname.to_string(), false));
            let embed = Embed {
                title: "Guild Application Request".to_string(),
                colour: Colour::DarkPurple,
                description: Some(
                    "Please DONT delete this after promoting or rejecting an applicant".to_string(),
                ),
                image: None,
                author: Some(EmbedAuthor { name: None, icon_url: get_avatar_url(user) }),
                fields,
                footer: None,
                timestamp: false,
            };
            assert(embed@.fields =~= application_request(*user, nickname@).fields);
            (Some(embed), "Guild Application was sent!".to_string())
        },
        None => (None, "No information was sent...".to_string()),
    }
}

/// Why an account is not contained: the master admin and bots are not.
pub open spec fn containment_refusal(user: User) -> Option<Seq<char>> {
    if user.id.0 == MASTER_ADMIN {
        Some("Nice try..."@)
    } else if user.bot {
        Some("Can not execute action on a bot..."@)
    } else {
        None
    }
}

/// What containing a member ends in, once the member's roles are backed up
/// or were found backed up already.
#[derive(Debug)]
pub enum Containment {
    /// The member was contained before.
    AlreadyTriggered { reply: String },
    /// The member is led to a room: the role of the room is given, the
    /// message is posted in its channel, and the moderator gets the reply.
    Contained { role: u64, channel: u64, message: String, reply: String },
    /// No room is open.
    Full { reply: String },
}

/// What the contained member is told in the room.
pub open spec fn pulled_in_text(user_id: u64) -> Seq<char> {
    user_mention(user_id)
        + "\nYou have been pulled into a private room by a moderator. Please wait for details..."@
}

/// What the moderator is told where no room is open.
pub open spec fn rooms_full_text(author_id: u64) -> Seq<char> {
    user_mention(author_id) + "\nAll triggered rooms are full. Contact bot admin for details..."@
}

/// What the moderator is told about a member who was contained before.
pub open spec fn already_triggered_text(user_id: u64) -> Seq<char> {
    user_mention(user_id) + " is already triggered..."@
}

/// Decides whether an account can be contained at all; the refusal where it
/// cannot.
pub fn triggered_refusal(user: &User) -> (refusal: Option<String>)
    ensures
        match refusal {
            Some(text) => Some(text@) == containment_refusal(*user),
            None => containment_refusal(*user) is None,
        },
{
    if is_master_admin(user) {
        Some("Nice try...".to_string())
    } else if user.bot {
        Some("Can not execute action on a bot...".to_string())
    } else {
        None
    }
}

/// Decides what containing a member ends in. `backed_up` says whether the
/// member's roles were backed up just now; `open_room` is what the claim of
/// a room gave, and is looked at only where they were.
pub fn triggered(
    user_id: UserId,
    author_id: UserId,
    backed_up: bool,
    open_room: Option<(u64, u64)>,
) -> (end: Containment)
    ensures
        match end {
            Containment::AlreadyTriggered { reply } => !backed_up && reply@
                == already_triggered_text(user_id.0),
            Containment::Contained { role, channel, message, reply } => {
                &&& backed_up
                &&& open_room == Some((role, channel))
                &&& message@ == pulled_in_text(user_id.0)
                &&& reply@ == "User has been contained..."@
            },
            Containment::Full { reply } => backed_up && open_room is None && reply@
                == rooms_full_text(author_id.0),
        },
{
    if !backed_up {
        let mention = user_id.get_interactive();
        return Containment::AlreadyTriggered {
            reply: concat(mention.as_str(), " is already triggered..."),
        };
    }
    match open_room {
        Some((role, channel)) => {
            let mention = user_id.get_interactive();
            Containment::Contained {
                role,
                channel,
                message: concat(
                    mention.as_str(),
                    "\nYou have been pulled into a private room by a moderator. Please wait for details...",
                ),
                reply: "User has been contained...".to_string(),
            }
        },
        None => {
            let mention = author_id.get_interactive();
            Containment::Full {
                reply: concat(
                    mention.as_str(),
                    "\nAll triggered rooms are full. Contact bot admin for details...",
                ),
            }
        },
    }
}

/// What the moderator is told after a release.
pub open spec fn released_text(author_id: u64) -> Seq<char> {
    user_mention(author_id)
        + "\nRelease successful.\n\nPlease remember to use the `/unlock_triggered_channel` command on any containment channel to clear the old conversation and unlock it for the future use.\n\nONLY DO THIS AFTER THE CONVERSATION HAS BEEN REVIEWED AND IMPORTANT SCREENSHOTS HAVE BEEN TAKEN!!"@
}

/// What the moderator is told about a member who holds no backup.
pub open spec fn already_released_text(user_id: u64) -> Seq<char> {
    user_mention(user_id) + " is has already been released..."@
}

/// Decides whether an account can be released at all: bots are not.
pub fn release_refusal(user: &User) -> (refusal: Option<String>)
    ensures
        refusal is Some <==> user.bot,
        refusal is Some ==> refusal->0@ == "Can not execute action on a bot..."@,
{
    if user.bot {
        Some("Can not execute action on a bot...".to_string())
    } else {
        None
    }
}

/// Decides what a release ends in: the roles that the member gets back,
/// where a backup was found, and what the moderator is told.
pub fn release_trigger(
    user_id: UserId,
    author_id: UserId,
    extracted_roles: Option<Vec<u64>>,
) -> (end: (Option<Vec<u64>>, String))
    ensures
        end.0 == extracted_roles,
        end.1@ == if extracted_roles is Some {
            released_text(author_id.0)
        } else {
            already_released_text(user_id.0)
        },
{
    match extracted_roles {
        Some(roles) => {
            let mention = author_id.get_interactive();
            (
                Some(roles),
                concat(
                    mention.as_str(),
                    "\nRelease successful.\n\nPlease remember to use the `/unlock_triggered_channel` command on any containment channel to clear the old conversation and unlock it for the future use.\n\nONLY DO THIS AFTER THE CONVERSATION HAS BEEN REVIEWED AND IMPORTANT SCREENSHOTS HAVE BEEN TAKEN!!",
                ),
            )
        },
        None => {
            let mention = user_id.get_interactive();
            (None, concat(mention.as_str(), " is has already been released..."))
        },
    }
}

} // verus!
