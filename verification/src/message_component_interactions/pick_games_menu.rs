use vstd::prelude::*;
use crate::config::plain_texts;
use crate::data_enums::CustomId;
use crate::embed::{
    author_of, author_view, footer_of, push_field, user_footer, Colour, Embed, EmbedField,
    EmbedView, FieldView,
};
use crate::extensions::{mention_roles, role_mentions, user_mention, InteractiveSnowflakeExt};
use crate::message_component_interactions::{Interaction, MsgComponentInteraction};
use crate::model::{
    has_role, keep_outside, keep_within, roles_outside, roles_within, Member, Role, RoleId,
};
use crate::text::{decimal, decimal_text, parse_u64, parsed_u64};

verus! {

/// The handler of the menu through which members pick their games.
#[derive(Debug)]
pub struct PickGamesMenu(CustomId);

impl Default for PickGamesMenu {
    fn default() -> (menu: Self)
        ensures
            menu.id() == CustomId::Invalid,
    {
        PickGamesMenu(CustomId::Invalid)
    }
}

impl MsgComponentInteraction for PickGamesMenu {
    open spec fn valid_ids() -> Seq<CustomId> {
        seq![
            CustomId::PickGamesAdd,
            CustomId::PickGamesRemove,
            CustomId::PickGamesAddExecute,
            CustomId::PickGamesRemoveExecute,
        ]
    }

    closed spec fn id(&self) -> CustomId {
        self.0
    }

    open spec fn answer(id: CustomId) -> Option<Interaction> {
        match id {
            CustomId::PickGamesAdd => Some(Interaction::PickGamesButtonPressed),
            CustomId::PickGamesRemove => Some(Interaction::RemoveGamesButtonPressed),
            CustomId::PickGamesAddExecute => Some(Interaction::PickGamesButtonExecute),
            CustomId::PickGamesRemoveExecute => Some(Interaction::RemoveGamesButtonExecute),
            _ => None,
        }
    }

    fn valid_custom_ids() -> (ids: Vec<CustomId>) {
        let mut ids: Vec<CustomId> = Vec::new();
        ids.push(CustomId::PickGamesAdd);
        ids.push(CustomId::PickGamesRemove);
        ids.push(CustomId::PickGamesAddExecute);
        ids.push(CustomId::PickGamesRemoveExecute);
        assert(ids@ =~= Self::valid_ids());
        ids
    }

    fn custom_id(&self) -> (id: &CustomId) {
        &self.0
    }

    fn inner_new(custom_id: &CustomId) -> (handler: Self) {
        PickGamesMenu(*custom_id)
    }

    fn inner_execute(&self) -> (step: Option<Interaction>) {
        match self.0 {
            CustomId::PickGamesAdd => Some(Interaction::PickGamesButtonPressed),
            CustomId::PickGamesRemove => Some(Interaction::RemoveGamesButtonPressed),
            CustomId::PickGamesAddExecute => Some(Interaction::PickGamesButtonExecute),
            CustomId::PickGamesRemoveExecute => Some(Interaction::RemoveGamesButtonExecute),
            _ => None,
        }
    }
}

/// One line of a select menu: what is shown, and what is sent back when the
/// line is chosen.
#[derive(Debug)]
pub struct MenuOption {
    pub label: String,
    pub value: String,
}

/// A message with a select menu. Up to `max_values` lines can be chosen at
/// once.
#[derive(Debug)]
pub struct SelectMenu {
    pub content: String,
    pub custom_id: String,
    pub placeholder: String,
    pub max_values: u64,
    pub options: Vec<MenuOption>,
}

/// A line of a select menu as a plain value.
pub struct OptionView {
    pub label: Seq<char>,
    pub value: Seq<char>,
}

/// A select menu as a plain value.
pub struct MenuView {
    pub content: Seq<char>,
    pub custom_id: Seq<char>,
    pub placeholder: Seq<char>,
    pub max_values: u64,
    pub options: Seq<OptionView>,
}

impl View for MenuOption {
    type V = OptionView;

    open spec fn view(&self) -> OptionView {
        OptionView { label: self.label@, value: self.value@ }
    }
}

impl View for SelectMenu {
    type V = MenuView;

    open spec fn view(&self) -> MenuView {
        MenuView {
            content: self.content@,
            custom_id: self.custom_id@,
            placeholder: self.placeholder@,
            max_values: self.max_values,
            options: self.options@.map_values(|option: MenuOption| option@),
        }
    }
}

/// The games that the holder of `held` does not have, in order.
pub open spec fn games_outside(games: Seq<Role>, held: Seq<RoleId>) -> Seq<Role> {
    games.filter(|game: Role| !held.contains(game.id))
}

/// The games that the holder of `held` has, in order.
pub open spec fn games_within(games: Seq<Role>, held: Seq<RoleId>) -> Seq<Role> {
    games.filter(|game: Role| held.contains(game.id))
}

/// The lines of a menu of games: one per game, shown by its name and sent
/// back as its identifier. Where there is no game, one line that says so
/// and is sent back as `__invalid__`.
pub open spec fn game_options(games: Seq<Role>, none_left: Seq<char>) -> Seq<OptionView> {
    if games.len() > 0 {
        games.map_values(
            |game: Role| OptionView { label: game.name@, value: decimal(game.id.0 as nat) },
        )
    } else {
        seq![OptionView { label: none_left, value: "__invalid__"@ }]
    }
}

/// The menu that offers `games`; every one of them can be chosen at once.
pub open spec fn games_menu(
    content: Seq<char>,
    custom_id: CustomId,
    games: Seq<Role>,
    none_left: Seq<char>,
) -> MenuView {
    MenuView {
        content,
        custom_id: custom_id.text(),
        placeholder: "No games selected"@,
        max_values: if games.len() > 0 {
            games.len() as u64
        } else {
            1
        },
        options: game_options(games, none_left),
    }
}

/// Keeps the games whose role the member has (`held_wanted`) or has not.
fn split_games(games: &Vec<Role>, held: &Vec<RoleId>, held_wanted: bool) -> (kept: Vec<Role>)
    ensures
        kept@ == if held_wanted {
            games_within(games@, held@)
        } else {
            games_outside(games@, held@)
        },
{
    let ghost keep = if held_wanted {
        |game: Role| held@.contains(game.id)
    } else {
        |game: Role| !held@.contains(game.id)
    };
    let mut kept: Vec<Role> = Vec::new();
    let mut i: usize = 0;
    proof {
        reveal(Seq::filter);
        assert(games@.take(0) =~= Seq::<Role>::empty());
    }
    while i < games.len()
        invariant
            i <= games.len(),
            keep == if held_wanted {
                |game: Role| held@.contains(game.id)
            } else {
                |game: Role| !held@.contains(game.id)
            },
            kept@ == games@.take(i as int).filter(keep),
        decreases games.len() - i,
    {
        proof {
            reveal(Seq::filter);
            assert(games@.take(i + 1).drop_last() =~= games@.take(i as int));
            assert(games@.take(i + 1).last() == games@[i as int]);
        }
        if has_role(held, games[i].id) == held_wanted {
            kept.push(Role { id: games[i].id, name: games[i].name.clone() });
        }
        i += 1;
    }
    assert(games@.take(i as int) =~= games@);
    kept
}

/// Makes the menu that offers `games`.
fn menu_of(
    content: &str,
    custom_id: CustomId,
    games: &Vec<Role>,
    none_left: &str,
) -> (menu: SelectMenu)
    ensures
        menu@ == games_menu(content@, custom_id, games@, none_left@),
{
    let mut options: Vec<MenuOption> = Vec::new();
    let max_values: u64;
    if games.len() > 0 {
        max_values = games.len() as u64;
        let mut i: usize = 0;
        while i < games.len()
            invariant
                i <= games.len(),
                options@.len() == i,
                forall|j: int|
                    0 <= j < i ==> options@[j]@ == (OptionView {
                        label: games@[j].name@,
                        value: decimal(games@[j].id.0 as nat),
                    }),
            decreases games.len() - i,
        {
            options.push(
                MenuOption { label: games[i].name.clone(), value: decimal_text(games[i].id.0) },
            );
            i += 1;
        }
    } else {
        max_values = 1;
        options.push(MenuOption { label: none_left.to_string(), value: "__invalid__".to_string() });
    }
    let menu = SelectMenu {
        content: content.to_string(),
        custom_id: custom_id.to_string(),
        placeholder: "No games selected".to_string(),
        max_values,
        options,
    };
    assert(menu@.options =~= game_options(games@, none_left@));
    menu
}

impl PickGamesMenu {
    /// The menu for a member who wants more games: the games that the
    /// member does not have yet.
    pub fn pick_games_button_pressed(games: &Vec<Role>, member: &Member) -> (menu: SelectMenu)
        ensures
            menu@ == games_menu(
                "Please select the games you're interested in"@,
                CustomId::PickGamesAddExecute,
                games_outside(games@, member.roles@),
                "All available games are already assigned to you..."@,
            ),
    {
        let games = split_games(games, &member.roles, false);
        menu_of(
            "Please select the games you're interested in",
            CustomId::PickGamesAddExecute,
            &games,
            "All available games are already assigned to you...",
        )
    }

    /// The menu for a member who wants fewer games: the games that the
    /// member has.
    pub fn remove_games_button_pressed(games: &Vec<Role>, member: &Member) -> (menu: SelectMenu)
        ensures
            menu@ == games_menu(
                "Please select the game roles you would like to remove"@,
                CustomId::PickGamesRemoveExecute,
                games_within(games@, member.roles@),
                "None of the available games are assigned to you..."@,
            ),
    {
        let games = split_games(games, &member.roles, true);
        menu_of(
            "Please select the game roles you would like to remove",
            CustomId::PickGamesRemoveExecute,
            &games,
            "None of the available games are assigned to you...",
        )
    }
}

/// What a member is told after a choice from a menu of games.
#[derive(Debug)]
pub enum Reply {
    /// A line of text.
    Content(String),
    /// An embed.
    Embed(Embed),
}

/// What is done about a choice from a menu of games: the roles that the
/// member is given, or that are taken from the member, and what the member
/// is told. The roles are given or taken whatever the reply is.
#[derive(Debug)]
pub struct RoleUpdate {
    pub roles: Vec<RoleId>,
    pub reply: Reply,
}

/// A reply as a plain value.
pub enum ReplyView {
    Content(Seq<char>),
    Embed(EmbedView),
}

/// An update as a plain value.
pub struct UpdateView {
    pub roles: Seq<RoleId>,
    pub reply: ReplyView,
}

impl View for Reply {
    type V = ReplyView;

    open spec fn view(&self) -> ReplyView {
        match self {
            Reply::Content(text) => ReplyView::Content(text@),
            Reply::Embed(embed) => ReplyView::Embed(embed@),
        }
    }
}

impl View for RoleUpdate {
    type V = UpdateView;

    open spec fn view(&self) -> UpdateView {
        UpdateView { roles: self.roles@, reply: self.reply@ }
    }
}

/// Whether every value that was sent back is a number.
pub open spec fn values_readable(values: Seq<Seq<char>>) -> bool {
    forall|i: int| 0 <= i < values.len() ==> parsed_u64(#[trigger] values[i]) is Some
}

/// The roles that the values sent back name, in order.
pub open spec fn picked_roles(values: Seq<Seq<char>>) -> Seq<RoleId> {
    Seq::new(values.len(), |i: int| RoleId(parsed_u64(values[i])->0))
}

/// Whether one of the roles is among the roles that ask for an application
/// to the guild, which are configured as numbers in text.
pub open spec fn needs_application(roles: Seq<RoleId>, guild_apply_roles: Seq<Seq<char>>) -> bool {
    exists|i: int|
        0 <= i < roles.len() && guild_apply_roles.contains(#[trigger] decimal(roles[i].0 as nat))
}

/// The embed that tells a member which roles changed. `heading` names the
/// change.
pub open spec fn roles_updated_embed(
    heading: Seq<char>,
    roles: Seq<RoleId>,
    member: Member,
) -> EmbedView {
    EmbedView {
        title: "Roles Updated"@,
        colour: Colour::Yellow,
        description: Some("\u{f0}\u{178}\u{201d}\u{201e} \u{f0}\u{178}\u{201d}\u{201e} \u{f0}\u{178}\u{201d}\u{201e}"@),
        image: None,
        author: Some(author_view(member.user)),
        fields: seq![
            FieldView { name: heading, value: role_mentions(roles), inline: true },
            FieldView {
                name: "Display Name"@,
                value: user_mention(member.user.id.0),
                inline: false,
            },
        ],
        footer: Some(user_footer(member.user.id.0)),
        timestamp: true,
    }
}

/// The embed that sends a member on to apply to the guild.
pub open spec fn application_embed() -> EmbedView {
    EmbedView {
        title: "Guild Application Required!"@,
        colour: Colour::Red,
        description: Some(
            "# Guild Application Required!\n***Step 1: Move to any room you can type in***\nStep 2: `Right Click` yourself IN THE MYTHICC DISCORD, select `Apps`, and then `Guild Apply`"@,
        ),
        image: None,
        author: None,
        fields: Seq::empty(),
        footer: None,
        timestamp: false,
    }
}

/// What is done when a member has chosen games to add: the chosen roles
/// that the member does not have are given. Where none is left the member
/// is told that the choice is invalid; where one of them asks for an
/// application the member is sent on to apply; else the member is shown the
/// new roles.
pub open spec fn add_update(
    values: Seq<Seq<char>>,
    member: Member,
    guild_apply_roles: Seq<Seq<char>>,
) -> UpdateView {
    let roles = roles_outside(picked_roles(values), member.roles@);
    UpdateView {
        roles,
        reply: if roles.len() == 0 {
            ReplyView::Content("Invalid Operation..."@)
        } else if needs_application(roles, guild_apply_roles) {
            ReplyView::Embed(application_embed())
        } else {
            ReplyView::Embed(roles_updated_embed("New Roles: "@, roles, member))
        },
    }
}

/// What is done when a member has chosen games to remove: the chosen roles
/// that the member has are taken. Where none is left the member is told
/// that the choice is invalid; else the member is shown the roles that were
/// taken.
pub open spec fn remove_update(values: Seq<Seq<char>>, member: Member) -> UpdateView {
    let roles = roles_within(picked_roles(values), member.roles@);
    UpdateView {
        roles,
        reply: if roles.len() == 0 {
            ReplyView::Content("Invalid Operation..."@)
        } else {
            ReplyView::Embed(roles_updated_embed("Removed Roles: "@, roles, member))
        },
    }
}

/// Whether `text` stands in `texts`.
pub fn has_text(texts: &Vec<String>, text: &String) -> (found: bool)
    ensures
        found == plain_texts(texts@).contains(text@),
{
    let mut i: usize = 0;
    while i < texts.len()
        invariant
            i <= texts.len(),
            forall|j: int| 0 <= j < i ==> plain_texts(texts@)[j] != text@,
        decreases texts.len() - i,
    {
        if texts[i] == *text {
            assert(plain_texts(texts@)[i as int] == text@);
            return true;
        }
        i += 1;
    }
    false
}

/// Reads the values that a menu sent back as roles; `None` where one of
/// them is no number.
pub fn read_roles(values: &Vec<String>) -> (roles: Option<Vec<RoleId>>)
    ensures
        roles is Some <==> values_readable(plain_texts(values@)),
        roles is Some ==> roles->0@ == picked_roles(plain_texts(values@)),
{
    let ghost texts = plain_texts(values@);
    let mut roles: Vec<RoleId> = Vec::new();
    let mut i: usize = 0;
    while i < values.len()
        invariant
            i <= values.len(),
            texts == plain_texts(values@),
            roles@.len() == i,
            forall|j: int| 0 <= j < i ==> parsed_u64(#[trigger] texts[j]) is Some,
            forall|j: int| 0 <= j < i ==> roles@[j] == RoleId(parsed_u64(texts[j])->0),
        decreases values.len() - i,
    {
        assert(texts[i as int] == values@[i as int]@);
        match parse_u64(values[i].as_str()) {
            Some(id) => {
                roles.push(RoleId(id));
            },
            None => {
                return None;
            },
        }
        i += 1;
    }
    assert(roles@ =~= picked_roles(texts));
    Some(roles)
}

/// Whether one of the roles asks for an application to the guild.
pub fn asks_for_application(roles: &Vec<RoleId>, guild_apply_roles: &Vec<String>) -> (asked: bool)
    ensures
        asked == needs_application(roles@, plain_texts(guild_apply_roles@)),
{
    let mut i: usize = 0;
    while i < roles.len()
        invariant
            i <= roles.len(),
            forall|j: int|
                0 <= j < i ==> !plain_texts(guild_apply_roles@).contains(
                    #[trigger] decimal(roles@[j].0 as nat),
                ),
        decreases roles.len() - i,
    {
        let text = decimal_text(roles[i].0);
        if has_text(guild_apply_roles, &text) {
            return true;
        }
        i += 1;
    }
    false
}

/// Makes the embed that tells a member which roles changed.
fn roles_updated(heading: &str, roles: &Vec<RoleId>, member: &Member) -> (embed: Embed)
    ensures
        embed@ == roles_updated_embed(heading@, roles@, *member),
{
    let mut fields: Vec<EmbedField> = Vec::new();
    push_field(&mut fields, EmbedField::new(heading, mention_roles(roles), true));
    push_field(
        &mut fields,
        EmbedField::new("Display Name", member.user.id.get_interactive(), false),
    );
    let embed = Embed {
        title: "Roles Updated".to_string(),
        colour: Colour::Yellow,
        description: Some("\u{f0}\u{178}\u{201d}\u{201e} \u{f0}\u{178}\u{201d}\u{201e} \u{f0}\u{178}\u{201d}\u{201e}".to_string()),
        image: None,
        author: Some(author_of(&member.user)),
        fields,
        footer: Some(footer_of(member.user.id.0)),
        timestamp: true,
    };
    assert(embed@.fields =~= roles_updated_embed(heading@, roles@, *member).fields);
    embed
}

/// Makes the embed that sends a member on to apply to the guild.
fn application_required() -> (embed: Embed)
    ensures
        embed@ == application_embed(),
{
    let embed = Embed {
        title: "Guild Application Required!".to_string(),
        colour: Colour::Red,
        description: Some(
            "# Guild Application Required!\n***Step 1: Move to any room you can type in***\nStep 2: `Right Click` yourself IN THE MYTHICC DISCORD, select `Apps`, and then `Guild Apply`".to_string(),
        ),
        image: None,
        author: None,
        fields: Vec::new(),
        footer: None,
        timestamp: false,
    };
    assert(embed@.fields =~= Seq::<FieldView>::empty());
    embed
}

impl PickGamesMenu {
    /// Decides what is done when a member has chosen games to add. `None`
    /// where one of the values sent back is no number.
    pub fn pick_games_button_execute(
        values: &Vec<String>,
        member: &Member,
        guild_apply_roles: &Vec<String>,
    ) -> (update: Option<RoleUpdate>)
        ensures
            update is Some <==> values_readable(plain_texts(values@)),
            update is Some ==> update->0@ == add_update(
                plain_texts(values@),
                *member,
                plain_texts(guild_apply_roles@),
            ),
    {
        let picked = match read_roles(values) {
            Some(picked) => picked,
            None => {
                return None;
            },
        };
        let selected_games = keep_outside(&picked, &member.roles);
        let reply = if selected_games.len() < 1 {
            Reply::Content("Invalid Operation...".to_string())
        } else if asks_for_application(&selected_games, guild_apply_roles) {
            Reply::Embed(application_required())
        } else {
            Reply::Embed(roles_updated("New Roles: ", &selected_games, member))
        };
        Some(RoleUpdate { roles: selected_games, reply })
    }

    /// Decides what is done when a member has chosen games to remove.
    /// `None` where one of the values sent back is no number.
    pub fn remove_games_button_execute(
        values: &Vec<String>,
        member: &Member,
    ) -> (update: Option<RoleUpdate>)
        ensures
            update is Some <==> values_readable(plain_texts(values@)),
            update is Some ==> update->0@ == remove_update(plain_texts(values@), *member),
    {
        let picked = match read_roles(values) {
            Some(picked) => picked,
            None => {
                return None;
            },
        };
        let selected_games = keep_within(&picked, &member.roles);
        let reply = if selected_games.len() < 1 {
            Reply::Content("Invalid Operation...".to_string())
        } else {
            Reply::Embed(roles_updated("Removed Roles: ", &selected_games, member))
        };
        Some(RoleUpdate { roles: selected_games, reply })
    }
}

/// The games menu answers to exactly the kinds of component that it lists.
pub proof fn lemma_pick_games_answers_its_ids(id: CustomId)
    ensures
        PickGamesMenu::answer(id) is Some <==> PickGamesMenu::valid_ids().contains(id),
{
    let ids = PickGamesMenu::valid_ids();
    assert(ids[0] == CustomId::PickGamesAdd);
    assert(ids[1] == CustomId::PickGamesRemove);
    assert(ids[2] == CustomId::PickGamesAddExecute);
    assert(ids[3] == CustomId::PickGamesRemoveExecute);
}

} // verus!
