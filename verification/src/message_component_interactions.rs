use vstd::prelude::*;
use vstd::string::*;
use crate::data_enums::CustomId;
use crate::message_component_interactions::pick_games_menu::PickGamesMenu;

pub mod guild_apply_menu;
pub mod pick_games_menu;

verus! {

/// What the bot does in answer to a component that was used.
#[derive(Clone, Copy, PartialEq, Eq, Structural, Debug)]
pub enum Interaction {
    /// Offer the games that the member does not have yet.
    PickGamesButtonPressed,
    /// Offer the games that the member has.
    RemoveGamesButtonPressed,
    /// Give the member the games that were selected.
    PickGamesButtonExecute,
    /// Take the games that were selected from the member.
    RemoveGamesButtonExecute,
    /// Ask the member for the name they play under.
    GuildApplyModalPopup,
}

/// Whether `id` stands in `ids`.
pub fn has_custom_id(ids: &Vec<CustomId>, id: &CustomId) -> (found: bool)
    ensures
        found == ids@.contains(*id),
{
    let mut i: usize = 0;
    while i < ids.len()
        invariant
            i <= ids.len(),
            forall|j: int| 0 <= j < i ==> ids@[j] != *id,
        decreases ids.len() - i,
    {
        if ids[i] == *id {
            return true;
        }
        i += 1;
    }
    false
}

/// A group of components that one handler answers to.
pub trait MsgComponentInteraction: Sized {
    /// The kinds of component that the handler answers to.
    spec fn valid_ids() -> Seq<CustomId>;

    /// The kind of component that this handler was made for.
    spec fn id(&self) -> CustomId;

    /// What the handler does for a kind of component; `None` where it does
    /// not answer to it.
    spec fn answer(id: CustomId) -> Option<Interaction>;

    /// The handler for a component, where this group answers to it.
    fn new(custom_id: &CustomId) -> (handler: Option<Self>)
        ensures
            handler is Some <==> Self::valid_ids().contains(*custom_id),
            handler is Some ==> handler->0.id() == *custom_id,
    {
        if has_custom_id(&Self::valid_custom_ids(), custom_id) {
            Some(Self::inner_new(custom_id))
        } else {
            None
        }
    }

    fn inner_new(custom_id: &CustomId) -> (handler: Self)
        ensures
            handler.id() == *custom_id,
    ;

    fn valid_custom_ids() -> (ids: Vec<CustomId>)
        ensures
            ids@ == Self::valid_ids(),
    ;

    fn custom_id(&self) -> (id: &CustomId)
        ensures
            *id == self.id(),
    ;

    /// What is to be done for the component; `None` where this handler does
    /// not answer to it.
    fn execute(&self) -> (step: Option<Interaction>)
        ensures
            step == Self::answer(self.id()),
    {
        self.inner_execute()
    }

    fn inner_execute(&self) -> (step: Option<Interaction>)
        ensures
            step == Self::answer(self.id()),
    ;
}

/// What is told to a member who used a component that no handler answers to.
pub open spec fn invalid_interaction_text(id: CustomId) -> Seq<char> {
    "Invalid message component id: "@ + id.text()
}

/// What is done about a component with the identifier `custom_id`: the step
/// of the games menu where it answers, else the refusal to send.
pub open spec fn routed(custom_id: Seq<char>) -> Result<Interaction, Seq<char>> {
    let id = CustomId::of_text(custom_id);
    match PickGamesMenu::answer(id) {
        Some(step) => Ok(step),
        None => Err(invalid_interaction_text(id)),
    }
}

/// Routes a component that was used to what is to be done about it. `Err`
/// holds the message that tells the member that nothing answers to it.
pub fn handle(custom_id: &str) -> (route: Result<Interaction, String>)
    ensures
        match route {
            Ok(step) => routed(custom_id@) == Ok::<Interaction, Seq<char>>(step),
            Err(message) => routed(custom_id@) == Err::<Interaction, Seq<char>>(message@),
        },
{
    let id = CustomId::new(custom_id);
    let handler = match PickGamesMenu::new(&id) {
        Some(handler) => handler,
        None => PickGamesMenu::default(),
    };
    match handler.execute() {
        Some(step) => Ok(step),
        None => Err(invalid_interaction(&id)),
    }
}

/// The message for a component that no handler answers to.
pub fn invalid_interaction(custom_id: &CustomId) -> (message: String)
    ensures
        message@ == invalid_interaction_text(*custom_id),
{
    let mut message = String::new();
    message.append("Invalid message component id: ");
    let id_text = custom_id.to_string();
    message.append(id_text.as_str());
    assert(message@ =~= invalid_interaction_text(*custom_id));
    message
}

} // verus!
