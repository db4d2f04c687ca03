use vstd::prelude::*;
use vstd::string::*;
use crate::model::User;
use crate::text::{decimal, push_decimal};
use crate::utils::discord_cdn::{avatar_url, get_avatar_url};

verus! {

/// The colours that the bot's messages use.
#[derive(Clone, Copy, PartialEq, Eq, Structural, Debug)]
pub enum Colour {
    Green,
    Red,
    Yellow,
    Black,
    DarkPurple,
}

/// A titled line of an embed.
#[derive(Debug)]
pub struct EmbedField {
    pub name: String,
    pub value: String,
    pub inline: bool,
}

/// Who an embed is about.
#[derive(Debug)]
pub struct EmbedAuthor {
    pub name: Option<String>,
    pub icon_url: String,
}

/// What an embedded message shows. `timestamp` asks for the time of sending
/// to be shown.
#[derive(Debug)]
pub struct Embed {
    pub title: String,
    pub colour: Colour,
    pub description: Option<String>,
    pub image: Option<String>,
    pub author: Option<EmbedAuthor>,
    pub fields: Vec<EmbedField>,
    pub footer: Option<String>,
    pub timestamp: bool,
}

/// A field as a plain value.
pub struct FieldView {
    pub name: Seq<char>,
    pub value: Seq<char>,
    pub inline: bool,
}

/// An author as a plain value.
pub struct AuthorView {
    pub name: Option<Seq<char>>,
    pub icon_url: Seq<char>,
}

/// An embed as a plain value.
pub struct EmbedView {
    pub title: Seq<char>,
    pub colour: Colour,
    pub description: Option<Seq<char>>,
    pub image: Option<Seq<char>>,
    pub author: Option<AuthorView>,
    pub fields: Seq<FieldView>,
    pub footer: Option<Seq<char>>,
    pub timestamp: bool,
}

/// An optional text as a plain value.
pub open spec fn text_of(text: Option<String>) -> Option<Seq<char>> {
    match text {
        Some(text) => Some(text@),
        None => None,
    }
}

impl View for EmbedField {
    type V = FieldView;

    open spec fn view(&self) -> FieldView {
        FieldView { name: self.name@, value: self.value@, inline: self.inline }
    }
}

impl View for EmbedAuthor {
    type V = AuthorView;

    open spec fn view(&self) -> AuthorView {
        AuthorView { name: text_of(self.name), icon_url: self.icon_url@ }
    }
}

impl View for Embed {
    type V = EmbedView;

    open spec fn view(&self) -> EmbedView {
        EmbedView {
            title: self.title@,
            colour: self.colour,
            description: text_of(self.description),
            image: text_of(self.image),
            author: match self.author {
                Some(author) => Some(author@),
                None => None,
            },
            fields: self.fields@.map_values(|field: EmbedField| field@),
            footer: text_of(self.footer),
            timestamp: self.timestamp,
        }
    }
}

/// Two texts, one after the other.
pub fn concat(first: &str, second: &str) -> (text: String)
    ensures
        text@ == first@ + second@,
{
    let mut text = String::new();
    text.append(first);
    text.append(second);
    assert(text@ =~= first@ + second@);
    text
}

/// The line at the foot of an embed that names an account.
pub open spec fn user_footer(id: u64) -> Seq<char> {
    "User ID: "@ + decimal(id as nat)
}

/// The author of an embed about an account: its name and its avatar.
pub open spec fn author_view(user: User) -> AuthorView {
    AuthorView { name: Some(user.name@), icon_url: avatar_url(user) }
}

/// Writes the line at the foot of an embed that names an account.
pub fn footer_of(id: u64) -> (footer: String)
    ensures
        footer@ == user_footer(id),
{
    let mut footer = String::new();
    footer.append("User ID: ");
    push_decimal(&mut footer, id);
    assert(footer@ =~= user_footer(id));
    footer
}

/// Makes the author of an embed about an account.
pub fn author_of(user: &User) -> (author: EmbedAuthor)
    ensures
        author@ == author_view(*user),
{
    EmbedAuthor { name: Some(user.name.clone()), icon_url: get_avatar_url(user) }
}

impl EmbedField {
    /// Makes a field.
    pub fn new(name: &str, value: String, inline: bool) -> (field: Self)
        ensures
            field@ == (FieldView { name: name@, value: value@, inline }),
    {
        EmbedField { name: name.to_string(), value, inline }
    }
}

/// Appends a field to the fields of an embed.
pub fn push_field(fields: &mut Vec<EmbedField>, field: EmbedField)
    ensures
        final(fields)@.map_values(|field: EmbedField| field@) == old(fields)@.map_values(
            |field: EmbedField| field@,
        ).push(field@),
{
    fields.push(field);
    assert(fields@.map_values(|field: EmbedField| field@) =~= old(fields)@.map_values(
        |field: EmbedField| field@,
    ).push(field@));
}

} // verus!
