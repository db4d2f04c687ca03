use vstd::prelude::*;
use crate::data_enums::CustomId;
use crate::message_component_interactions::{Interaction, MsgComponentInteraction};

verus! {

/// The handler of the button through which members apply to the guild.
#[derive(Debug)]
pub struct GuildApplyMenu(CustomId);

impl Default for GuildApplyMenu {
    fn default() -> (menu: Self)
        ensures
            menu.id() == CustomId::Invalid,
    {
        GuildApplyMenu(CustomId::Invalid)
    }
}

impl MsgComponentInteraction for GuildApplyMenu {
    open spec fn valid_ids() -> Seq<CustomId> {
        seq![CustomId::GuildApply]
    }

    closed spec fn id(&self) -> CustomId {
        self.0
    }

    open spec fn answer(id: CustomId) -> Option<Interaction> {
        match id {
            CustomId::GuildApply => Some(Interaction::GuildApplyModalPopup),
            _ => None,
        }
    }

    fn valid_custom_ids() -> (ids: Vec<CustomId>) {
        let mut ids: Vec<CustomId> = Vec::new();
        ids.push(CustomId::GuildApply);
        assert(ids@ =~= Self::valid_ids());
        ids
    }

    fn custom_id(&self) -> (id: &CustomId) {
        &self.0
    }

    fn inner_new(custom_id: &CustomId) -> (handler: Self) {
        GuildApplyMenu(*custom_id)
    }

    fn inner_execute(&self) -> (step: Option<Interaction>) {
        match self.0 {
            CustomId::GuildApply => Some(Interaction::GuildApplyModalPopup),
            _ => None,
        }
    }
}

} // verus!
