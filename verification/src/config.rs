use vstd::prelude::*;
use vstd::string::*;
use std::str::FromStr;
use crate::extensions::{channel_mention, role_mention};
use crate::model::{ChannelId, RoleId};
use crate::text::{chars_of, decimal, lemma_decimal_digits, lemma_decimal_is_read_back, parsed_u64};

verus! {

/// Why the configured pool of rooms is refused.
#[derive(Clone, Copy, PartialEq, Eq, Structural, Debug)]
pub enum ConfigError {
    /// The list of roles and the list of channels differ in length.
    LengthMismatch,
    /// An entry of one of the lists names no identifier.
    InvalidId,
}

impl ConfigError {
    /// What is told about the refusal.
    pub open spec fn text(self) -> Seq<char> {
        match self {
            ConfigError::LengthMismatch => "T_ROLES and T_ROOMS are not the same length..."@,
            ConfigError::InvalidId => "invalid id format"@,
        }
    }

    /// The refusal as text.
    pub fn to_string(&self) -> (text: String)
        ensures
            text@ == self.text(),
    {
        match self {
            ConfigError::LengthMismatch => {
                "T_ROLES and T_ROOMS are not the same length...".to_string()
            },
            ConfigError::InvalidId => "invalid id format".to_string(),
        }
    }
}

/// The pieces between the commas of `text`, in order. A text without a
/// comma is one piece; an empty text is one empty piece.
pub open spec fn comma_pieces(text: Seq<char>) -> Seq<Seq<char>>
    decreases text.len(),
{
    if text.len() == 0 {
        seq![text]
    } else if text[0] == ',' {
        seq![Seq::<char>::empty()] + comma_pieces(text.drop_first())
    } else {
        let rest = comma_pieces(text.drop_first());
        seq![seq![text[0]] + rest[0]] + rest.drop_first()
    }
}

/// The texts of a list as plain values.
pub open spec fn plain_texts(texts: Seq<String>) -> Seq<Seq<char>> {
    texts.map_values(|text: String| text@)
}

/// The pairs of a list as plain values.
pub open spec fn plain_pairs(pairs: Seq<(String, String)>) -> Seq<(Seq<char>, Seq<char>)> {
    pairs.map_values(|pair: (String, String)| (pair.0@, pair.1@))
}

/// A text always has at least one piece.
pub proof fn lemma_comma_pieces(text: Seq<char>)
    ensures
        comma_pieces(text).len() >= 1,
    decreases text.len(),
{
    if text.len() > 0 {
        lemma_comma_pieces(text.drop_first());
    }
}

/// Splitting after a piece that holds no comma: the piece comes first, the
/// pieces of what follows the comma after it.
pub proof fn lemma_pieces_after(text: Seq<char>, end: int)
    requires
        0 <= end <= text.len(),
        forall|j: int| 0 <= j < end ==> text[j] != ',',
        end < text.len() ==> text[end] == ',',
    ensures
        comma_pieces(text) == if end < text.len() {
            seq![text.take(end)] + comma_pieces(text.skip(end + 1))
        } else {
            seq![text]
        },
    decreases end,
{
    if end == 0 {
        if text.len() > 0 {
            assert(text.take(0) =~= Seq::<char>::empty());
            assert(text.skip(1) =~= text.drop_first());
        } else {
        }
    } else {
        let rest = text.drop_first();
        lemma_pieces_after(rest, end - 1);
        lemma_comma_pieces(rest);
        if end < text.len() {
            assert(rest.skip(end) =~= text.skip(end + 1));
            assert(seq![text[0]] + rest.take(end - 1) =~= text.take(end));
            let tail = comma_pieces(text.skip(end + 1));
            let pieces = comma_pieces(rest);
            assert(pieces == seq![rest.take(end - 1)] + tail);
            assert(pieces[0] == rest.take(end - 1));
            assert(pieces.drop_first() =~= tail);
            assert(comma_pieces(text) =~= seq![text.take(end)] + tail);
        } else {
            assert(comma_pieces(rest) == seq![rest]);
            assert(seq![text[0]] + rest =~= text);
            assert(seq![rest].drop_first() =~= Seq::<Seq<char>>::empty());
            assert(comma_pieces(text) =~= seq![text]);
        }
    }
}

/// Splits a configured list at its commas.
pub fn split_list(text: &str) -> (pieces: Vec<String>)
    ensures
        plain_texts(pieces@) == comma_pieces(text@),
{
    let chars = chars_of(text);
    let mut pieces: Vec<String> = Vec::new();
    let mut start: usize = 0;
    let mut i: usize = 0;
    proof {
        assert(text@.skip(0) =~= text@);
    }
    while i < chars.len()
        invariant
            chars@ == text@,
            start <= i <= chars.len(),
            forall|j: int| start <= j < i ==> chars@[j] != ',',
            comma_pieces(text@) == plain_texts(pieces@) + comma_pieces(text@.skip(start as int)),
        decreases chars.len() - i,
    {
        if chars[i] == ',' {
            let piece = text.substring_char(start, i);
            proof {
                let rest = text@.skip(start as int);
                lemma_pieces_after(rest, i - start);
                assert(rest.take(i - start) =~= text@.subrange(start as int, i as int));
                assert(rest.skip(i - start + 1) =~= text@.skip(i + 1));
            }
            let ghost before = pieces@;
            pieces.push(piece.to_string());
            assert(plain_texts(pieces@) =~= plain_texts(before) + seq![piece@]);
            start = i + 1;
        }
        i += 1;
    }
    let piece = text.substring_char(start, i);
    proof {
        let rest = text@.skip(start as int);
        lemma_pieces_after(rest, rest.len() as int);
        assert(rest =~= text@.subrange(start as int, i as int));
    }
    let ghost before = pieces@;
    pieces.push(piece.to_string());
    assert(plain_texts(pieces@) =~= plain_texts(before) + seq![piece@]);
    pieces
}

/// The two lists side by side, where they have the same length.
pub open spec fn paired(roles: Seq<Seq<char>>, rooms: Seq<Seq<char>>) -> Seq<
    (Seq<char>, Seq<char>),
> {
    Seq::new(roles.len(), |i: int| (roles[i], rooms[i]))
}

/// Pairs each configured role with the configured channel at the same
/// place. Lists of different lengths are refused before anything is paired.
pub fn pair_room_ids(
    t_roles: &Vec<String>,
    t_rooms: &Vec<String>,
) -> (t_ids: Result<Vec<(String, String)>, ConfigError>)
    ensures
        t_ids is Ok <==> t_roles@.len() == t_rooms@.len(),
        t_ids is Ok ==> plain_pairs(t_ids->Ok_0@) == paired(
            plain_texts(t_roles@),
            plain_texts(t_rooms@),
        ),
        t_ids is Err ==> t_ids->Err_0 == ConfigError::LengthMismatch,
{
    if t_roles.len() != t_rooms.len() {
        return Err(ConfigError::LengthMismatch);
    }
    let mut t_ids: Vec<(String, String)> = Vec::new();
    let mut index: usize = 0;
    while index < t_roles.len()
        invariant
            t_roles.len() == t_rooms.len(),
            index <= t_roles.len(),
            t_ids@.len() == index,
            forall|j: int|
                0 <= j < index ==> t_ids@[j].0@ == t_roles@[j]@ && t_ids@[j].1@ == t_rooms@[j]@,
        decreases t_roles.len() - index,
    {
        let t_role = t_roles[index].clone();
        let t_room = t_rooms[index].clone();
        t_ids.push((t_role, t_room));
        index += 1;
    }
    assert(plain_pairs(t_ids@) =~= paired(plain_texts(t_roles@), plain_texts(t_rooms@)));
    Ok(t_ids)
}

/// What a text names as a role in the form of a mention: the number between
/// `<@&` and `>`.
pub open spec fn role_in_mention(text: Seq<char>) -> Option<u64> {
    if text.len() >= 4 && text.take(3) == "<@&"@ && text.last() == '>' {
        parsed_u64(text.subrange(3, text.len() - 1))
    } else {
        None
    }
}

/// The role that a text names: the one of a mention where the text is a
/// mention of a role, else the number that the text is.
pub open spec fn role_id_in(text: Seq<char>) -> Option<u64> {
    match role_in_mention(text) {
        Some(id) => Some(id),
        None => parsed_u64(text),
    }
}

/// Reads a role's identifier with serenity's `RoleId::from_str`. By its
/// source that function first takes the text as a mention of a role
/// (`utils::parse_role`: `<@&`, a number that `str::parse::<u64>` accepts,
/// `>`), and where that fails takes the whole text as such a number; the
/// contract states that result, with `None` for its one error.
#[verifier::external_body]
pub(crate) fn parse_role_id(text: &str) -> (id: Option<u64>)
    ensures
        id == role_id_in(text@),
{
    match serenity::model::id::RoleId::from_str(text) {
        Ok(role) => Some(role.0),
        Err(_) => None,
    }
}

/// What a text names as a channel in the form of a mention: the number
/// between `<#` and `>`.
pub open spec fn channel_in_mention(text: Seq<char>) -> Option<u64> {
    if text.len() >= 4 && text.take(2) == "<#"@ && text.last() == '>' {
        parsed_u64(text.subrange(2, text.len() - 1))
    } else {
        None
    }
}

/// The channel that a text names: the one of a mention where the text is a
/// mention of a channel, else the number that the text is.
pub open spec fn channel_id_in(text: Seq<char>) -> Option<u64> {
    match channel_in_mention(text) {
        Some(id) => Some(id),
        None => parsed_u64(text),
    }
}

/// Reads a channel's identifier with serenity's `ChannelId::from_str`. By
/// its source that function first takes the text as a mention of a channel
/// (`utils::parse_channel`: `<#`, a number that `str::parse::<u64>`
/// accepts, `>`), and where that fails takes the whole text as such a
/// number; the contract states that result, with `None` for its one error.
#[verifier::external_body]
pub(crate) fn parse_channel_id(text: &str) -> (id: Option<u64>)
    ensures
        id == channel_id_in(text@),
{
    match serenity::model::id::ChannelId::from_str(text) {
        Ok(channel) => Some(channel.0),
        Err(_) => None,
    }
}

/// A role is read back from its mention and from its number, and a channel
/// from its mention and from its number.
pub proof fn lemma_mentions_are_read_back(id: u64)
    ensures
        role_id_in(role_mention(id)) == Some(id),
        role_id_in(decimal(id as nat)) == Some(id),
        channel_id_in(channel_mention(id)) == Some(id),
        channel_id_in(decimal(id as nat)) == Some(id),
{
    reveal_strlit("<@&");
    reveal_strlit("<#");
    reveal_strlit(">");
    lemma_decimal_is_read_back(id);
    lemma_decimal_digits(id as nat);
    let digits = decimal(id as nat);
    let role = role_mention(id);
    assert(role.take(3) =~= "<@&"@);
    assert(role.last() == '>');
    assert(role.subrange(3, role.len() - 1) =~= digits);
    let channel = channel_mention(id);
    assert(channel.take(2) =~= "<#"@);
    assert(channel.last() == '>');
    assert(channel.subrange(2, channel.len() - 1) =~= digits);
    assert(digits.len() < 4 || digits.take(3) != "<@&"@) by {
        if digits.len() >= 4 {
            assert(digits.take(3)[0] == digits[0]);
        }
    }
    assert(digits.len() < 4 || digits.take(2) != "<#"@) by {
        if digits.len() >= 4 {
            assert(digits.take(2)[0] == digits[0]);
        }
    }
}

/// Reads the configured identifier of a role.
pub fn configured_role(text: &str) -> (role: Option<RoleId>)
    ensures
        role == match role_id_in(text@) {
            Some(id) => Some(RoleId(id)),
            None => None,
        },
{
    match parse_role_id(text) {
        Some(id) => Some(RoleId(id)),
        None => None,
    }
}

/// Reads the configured identifier of a channel.
pub fn configured_channel(text: &str) -> (channel: Option<ChannelId>)
    ensures
        channel == match channel_id_in(text@) {
            Some(id) => Some(ChannelId(id)),
            None => None,
        },
{
    match parse_channel_id(text) {
        Some(id) => Some(ChannelId(id)),
        None => None,
    }
}

} // verus!
