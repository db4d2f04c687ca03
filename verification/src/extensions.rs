use vstd::prelude::*;
use vstd::string::*;
use crate::model::{ChannelId, RoleId, User, UserId};
use crate::text::{decimal, push_decimal};

verus! {

/// How an account is mentioned in a message.
pub open spec fn user_mention(id: u64) -> Seq<char> {
    "<@"@ + decimal(id as nat) + ">"@
}

/// How a role is mentioned in a message.
pub open spec fn role_mention(id: u64) -> Seq<char> {
    "<@&"@ + decimal(id as nat) + ">"@
}

/// How a channel is mentioned in a message.
pub open spec fn channel_mention(id: u64) -> Seq<char> {
    "<#"@ + decimal(id as nat) + ">"@
}

/// Identifiers that can be written so that the chat client shows them as a
/// link to what they name.
pub trait InteractiveSnowflakeExt {
    /// The mention, as text.
    spec fn interactive(&self) -> Seq<char>;

    fn get_interactive(&self) -> (mention: String)
        ensures
            mention@ == self.interactive(),
    ;
}

/// Identifiers that can be made from text.
pub trait FromStringSnowflakeExt: Sized {
    fn from(value: String) -> Self;
}

/// `opening`, the number, and `>`.
fn mention_text(opening: &str, id: u64) -> (mention: String)
    ensures
        mention@ == opening@ + decimal(id as nat) + ">"@,
{
    let mut mention = String::new();
    mention.append(opening);
    push_decimal(&mut mention, id);
    mention.append(">");
    assert(mention@ =~= opening@ + decimal(id as nat) + ">"@);
    mention
}

/// One line per account: its mention and a line break.
pub open spec fn user_lines(ids: Seq<u64>) -> Seq<char>
    decreases ids.len(),
{
    if ids.len() == 0 {
        Seq::empty()
    } else {
        user_lines(ids.drop_last()) + user_mention(ids.last()) + "\n"@
    }
}

/// One line per role: its mention and a line break.
pub open spec fn role_lines(ids: Seq<u64>) -> Seq<char>
    decreases ids.len(),
{
    if ids.len() == 0 {
        Seq::empty()
    } else {
        role_lines(ids.drop_last()) + role_mention(ids.last()) + "\n"@
    }
}

/// Writes one line per account.
pub fn list_users(ids: &Vec<u64>) -> (lines: String)
    ensures
        lines@ == user_lines(ids@),
{
    let mut lines = String::new();
    let mut i: usize = 0;
    proof {
        assert(ids@.take(0) =~= Seq::<u64>::empty());
    }
    while i < ids.len()
        invariant
            i <= ids.len(),
            lines@ == user_lines(ids@.take(i as int)),
        decreases ids.len() - i,
    {
        proof {
            assert(ids@.take(i + 1).drop_last() =~= ids@.take(i as int));
            assert(ids@.take(i + 1).last() == ids@[i as int]);
        }
        let mention = mention_text("<@", ids[i]);
        lines.append(mention.as_str());
        lines.append("\n");
        assert(lines@ =~= user_lines(ids@.take(i + 1)));
        i += 1;
    }
    assert(ids@.take(i as int) =~= ids@);
    lines
}

/// Writes one line per role.
pub fn list_roles(ids: &Vec<u64>) -> (lines: String)
    ensures
        lines@ == role_lines(ids@),
{
    let mut lines = String::new();
    let mut i: usize = 0;
    proof {
        assert(ids@.take(0) =~= Seq::<u64>::empty());
    }
    while i < ids.len()
        invariant
            i <= ids.len(),
            lines@ == role_lines(ids@.take(i as int)),
        decreases ids.len() - i,
    {
        proof {
            assert(ids@.take(i + 1).drop_last() =~= ids@.take(i as int));
            assert(ids@.take(i + 1).last() == ids@[i as int]);
        }
        let mention = mention_text("<@&", ids[i]);
        lines.append(mention.as_str());
        lines.append("\n");
        assert(lines@ =~= role_lines(ids@.take(i + 1)));
        i += 1;
    }
    assert(ids@.take(i as int) =~= ids@);
    lines
}

/// The mentions of the roles in order, with one space between neighbours.
pub open spec fn role_mentions(roles: Seq<RoleId>) -> Seq<char>
    decreases roles.len(),
{
    if roles.len() == 0 {
        Seq::empty()
    } else if roles.len() == 1 {
        role_mention(roles[0].0)
    } else {
        role_mentions(roles.drop_last()) + " "@ + role_mention(roles.last().0)
    }
}

/// Writes the roles as mentions, with one space between neighbours.
pub fn mention_roles(roles: &Vec<RoleId>) -> (line: String)
    ensures
        line@ == role_mentions(roles@),
{
    let mut line = String::new();
    let mut i: usize = 0;
    proof {
        assert(roles@.take(0) =~= Seq::<RoleId>::empty());
    }
    while i < roles.len()
        invariant
            i <= roles.len(),
            line@ == role_mentions(roles@.take(i as int)),
        decreases roles.len() - i,
    {
        proof {
            assert(roles@.take(i + 1).drop_last() =~= roles@.take(i as int));
            assert(roles@.take(i + 1).last() == roles@[i as int]);
        }
        if i > 0 {
            line.append(" ");
        }
        let mention = roles[i].get_interactive();
        line.append(mention.as_str());
        assert(line@ =~= role_mentions(roles@.take(i + 1)));
        i += 1;
    }
    assert(roles@.take(i as int) =~= roles@);
    line
}

impl InteractiveSnowflakeExt for User {
    open spec fn interactive(&self) -> Seq<char> {
        user_mention(self.id.0)
    }

    fn get_interactive(&self) -> (mention: String) {
        mention_text("<@", self.id.0)
    }
}

impl InteractiveSnowflakeExt for UserId {
    open spec fn interactive(&self) -> Seq<char> {
        user_mention(self.0)
    }

    fn get_interactive(&self) -> (mention: String) {
        mention_text("<@", self.0)
    }
}

impl InteractiveSnowflakeExt for RoleId {
    open spec fn interactive(&self) -> Seq<char> {
        role_mention(self.0)
    }

    fn get_interactive(&self) -> (mention: String) {
        mention_text("<@&", self.0)
    }
}

impl InteractiveSnowflakeExt for ChannelId {
    open spec fn interactive(&self) -> Seq<char> {
        channel_mention(self.0)
    }

    fn get_interactive(&self) -> (mention: String) {
        mention_text("<#", self.0)
    }
}

} // verus!
