use vstd::prelude::*;
use crate::text::same_text;

verus! {

/// The components of messages that the bot answers to, by the identifier
/// they carry.
#[derive(Clone, Copy, PartialEq, Eq, Structural, Debug)]
pub enum CustomId {
    PickGamesAdd,
    PickGamesRemove,
    PickGamesAddExecute,
    PickGamesRemoveExecute,
    GuildApply,
    Invalid,
}

impl Default for CustomId {
    fn default() -> (id: Self)
        ensures
            id == CustomId::Invalid,
    {
        CustomId::Invalid
    }
}

impl CustomId {
    /// The identifier that a component of this kind carries.
    pub open spec fn text(self) -> Seq<char> {
        match self {
            CustomId::PickGamesAdd => "pick-games-add"@,
            CustomId::PickGamesRemove => "pick-games-remove"@,
            CustomId::PickGamesAddExecute => "pick-games-add-execute"@,
            CustomId::PickGamesRemoveExecute => "pick-games-remove-execute"@,
            CustomId::GuildApply => "guild-apply"@,
            CustomId::Invalid => "__invalid__"@,
        }
    }

    /// The kind of component that carries `custom_id`; `Invalid` for every
    /// text that no kind carries.
    pub open spec fn of_text(custom_id: Seq<char>) -> CustomId {
        if custom_id == "pick-games-add"@ {
            CustomId::PickGamesAdd
        } else if custom_id == "pick-games-remove"@ {
            CustomId::PickGamesRemove
        } else if custom_id == "pick-games-add-execute"@ {
            CustomId::PickGamesAddExecute
        } else if custom_id == "pick-games-remove-execute"@ {
            CustomId::PickGamesRemoveExecute
        } else if custom_id == "guild-apply"@ {
            CustomId::GuildApply
        } else {
            CustomId::Invalid
        }
    }

    /// Reads the identifier that a component carries.
    pub fn new(custom_id: &str) -> (id: Self)
        ensures
            id == Self::of_text(custom_id@),
    {
        if same_text(custom_id, "pick-games-add") {
            CustomId::PickGamesAdd
        } else if same_text(custom_id, "pick-games-remove") {
            CustomId::PickGamesRemove
        } else if same_text(custom_id, "pick-games-add-execute") {
            CustomId::PickGamesAddExecute
        } else if same_text(custom_id, "pick-games-remove-execute") {
            CustomId::PickGamesRemoveExecute
        } else if same_text(custom_id, "guild-apply") {
            CustomId::GuildApply
        } else {
            CustomId::Invalid
        }
    }

    /// The identifier as text.
    pub fn to_string(&self) -> (text: String)
        ensures
            text@ == self.text(),
    {
        match self {
            CustomId::PickGamesAdd => "pick-games-add".to_string(),
            CustomId::PickGamesRemove => "pick-games-remove".to_string(),
            CustomId::PickGamesAddExecute => "pick-games-add-execute".to_string(),
            CustomId::PickGamesRemoveExecute => "pick-games-remove-execute".to_string(),
            CustomId::GuildApply => "guild-apply".to_string(),
            CustomId::Invalid => "__invalid__".to_string(),
        }
    }
}

/// Reading back the text of a kind gives the kind, and a text that is read
/// as a kind other than `Invalid` is the text of that kind.
pub proof fn lemma_custom_id_round_trip(id: CustomId, custom_id: Seq<char>)
    ensures
        CustomId::of_text(id.text()) == id,
        CustomId::of_text(custom_id) != CustomId::Invalid ==> CustomId::of_text(custom_id).text()
            == custom_id,
{
    reveal_strlit("pick-games-add");
    reveal_strlit("pick-games-remove");
    reveal_strlit("pick-games-add-execute");
    reveal_strlit("pick-games-remove-execute");
    reveal_strlit("guild-apply");
    reveal_strlit("__invalid__");
    assert("pick-games-add"@.len() == 14);
    assert("pick-games-remove"@.len() == 17);
    assert("pick-games-add-execute"@.len() == 22);
    assert("pick-games-remove-execute"@.len() == 25);
    assert("guild-apply"@.len() == 11);
    assert("__invalid__"@.len() == 11);
    assert("guild-apply"@[0] == 'g');
    assert("__invalid__"@[0] == '_');
}

} // verus!
