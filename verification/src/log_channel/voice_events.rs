use vstd::prelude::*;
use crate::config::{channel_id_in, configured_channel};
use crate::embed::{
    author_of, author_view, concat, footer_of, push_field, user_footer, Colour, Embed, EmbedField,
    EmbedView, FieldView,
};
use crate::extensions::{channel_mention, user_mention, InteractiveSnowflakeExt};
use crate::model::{ChannelId, User, UserId, VoiceState};

verus! {

/// What a change of a member's voice state means.
#[derive(Clone, Copy, PartialEq, Eq, Structural, Debug)]
pub enum VoiceEvent {
    UserJoinedChannel(ChannelId, UserId),
    UserLeftChannel(ChannelId, UserId),
    UserMovedChannel(ChannelId, ChannelId, UserId),
    Unknown,
}

/// The member was in no channel that is known of and is in one now.
pub open spec fn user_joined(old: Option<VoiceState>, new: VoiceState) -> bool {
    old is None && new.channel_id is Some
}

/// The member was in a channel and is in none now.
pub open spec fn user_left(old: Option<VoiceState>, new: VoiceState) -> bool {
    old is Some && new.channel_id is None && old->0.channel_id is Some
}

/// The member was in a channel and is in another one now.
pub open spec fn user_moved(old: Option<VoiceState>, new: VoiceState) -> bool {
    old is Some && new.channel_id is Some && old->0.channel_id is Some && old->0.channel_id->0
        != new.channel_id->0
}

/// The event that a change from `old` to `new` stands for.
pub open spec fn voice_event_of(old: Option<VoiceState>, new: VoiceState) -> VoiceEvent {
    if user_joined(old, new) {
        VoiceEvent::UserJoinedChannel(new.channel_id->0, new.user_id)
    } else if user_left(old, new) {
        VoiceEvent::UserLeftChannel(old->0.channel_id->0, new.user_id)
    } else if user_moved(old, new) {
        VoiceEvent::UserMovedChannel(old->0.channel_id->0, new.channel_id->0, new.user_id)
    } else {
        VoiceEvent::Unknown
    }
}

/// What is posted to the log channel about a voice event; nothing for an
/// event that is not understood. `user` is the account that the event is
/// about, as the platform knows it.
pub open spec fn voice_embed(event: VoiceEvent, user: User) -> Option<EmbedView> {
    match event {
        VoiceEvent::UserJoinedChannel(channel_id, user_id) => Some(
            EmbedView {
                title: "Joined Voice Chat"@,
                colour: Colour::Green,
                description: Some("Channel: "@ + channel_mention(channel_id.0)),
                image: None,
                author: Some(author_view(user)),
                fields: seq![
                    FieldView {
                        name: "Display Name"@,
                        value: user_mention(user_id.0),
                        inline: false,
                    },
                ],
                footer: Some(user_footer(user_id.0)),
                timestamp: true,
            },
        ),
        VoiceEvent::UserLeftChannel(channel_id, user_id) => Some(
            EmbedView {
                title: "Left Voice Chat"@,
                colour: Colour::Red,
                description: Some("Channel: "@ + channel_mention(channel_id.0)),
                image: None,
                author: Some(author_view(user)),
                fields: seq![
                    FieldView {
                        name: "Display Name"@,
                        value: user_mention(user_id.0),
                        inline: false,
                    },
                ],
                footer: Some(user_footer(user_id.0)),
                timestamp: true,
            },
        ),
        VoiceEvent::UserMovedChannel(old_channel_id, new_channel_id, user_id) => Some(
            EmbedView {
                title: "Moved Voice Chat"@,
                colour: Colour::Yellow,
                description: None,
                image: None,
                author: Some(author_view(user)),
                fields: seq![
                    FieldView {
                        name: "Left"@,
                        value: channel_mention(old_channel_id.0),
                        inline: true,
                    },
                    FieldView {
                        name: "Joined"@,
                        value: channel_mention(new_channel_id.0),
                        inline: true,
                    },
                    FieldView {
                        name: "Display Name"@,
                        value: user_mention(user_id.0),
                        inline: false,
                    },
                ],
                footer: Some(user_footer(user_id.0)),
                timestamp: true,
            },
        ),
        VoiceEvent::Unknown => None,
    }
}

impl VoiceEvent {
    /// The embed for a member who entered or left one channel.
    fn one_channel_log(
        title: &str,
        colour: Colour,
        channel_id: &ChannelId,
        user: &User,
        user_id: UserId,
    ) -> (embed: Embed)
        ensures
            embed@ == (EmbedView {
                title: title@,
                colour,
                description: Some("Channel: "@ + channel_mention(channel_id.0)),
                image: None,
                author: Some(author_view(*user)),
                fields: seq![
                    FieldView {
                        name: "Display Name"@,
                        value: user_mention(user_id.0),
                        inline: false,
                    },
                ],
                footer: Some(user_footer(user_id.0)),
                timestamp: true,
            }),
    {
        let mut fields: Vec<EmbedField> = Vec::new();
        push_field(&mut fields, EmbedField::new("Display Name", user_id.get_interactive(), false));
        let embed = Embed {
            title: title.to_string(),
            colour,
            description: Some(concat("Channel: ", channel_id.get_interactive().as_str())),
            image: None,
            author: Some(author_of(user)),
            fields,
            footer: Some(footer_of(user_id.0)),
            timestamp: true,
        };
        assert(embed@.fields =~= seq![
            FieldView { name: "Display Name"@, value: user_mention(user_id.0), inline: false },
        ]);
        embed
    }

    /// What is posted about a member who entered a voice channel.
    pub fn execute_user_joined_vc_log(
        channel_id: &ChannelId,
        user: &User,
        user_id: UserId,
    ) -> (embed: Embed)
        ensures
            Some(embed@) == voice_embed(VoiceEvent::UserJoinedChannel(*channel_id, user_id), *user),
    {
        Self::one_channel_log("Joined Voice Chat", Colour::Green, channel_id, user, user_id)
    }

    /// What is posted about a member who left a voice channel.
    pub fn execute_user_left_vc_log(
        channel_id: &ChannelId,
        user: &User,
        user_id: UserId,
    ) -> (embed: Embed)
        ensures
            Some(embed@) == voice_embed(VoiceEvent::UserLeftChannel(*channel_id, user_id), *user),
    {
        Self::one_channel_log("Left Voice Chat", Colour::Red, channel_id, user, user_id)
    }

    /// What is posted about a member who went from one voice channel to
    /// another.
    pub fn execute_user_moved_vc_log(
        old_channel_id: &ChannelId,
        new_channel_id: &ChannelId,
        user: &User,
        user_id: UserId,
    ) -> (embed: Embed)
        ensures
            Some(embed@) == voice_embed(
                VoiceEvent::UserMovedChannel(*old_channel_id, *new_channel_id, user_id),
                *user,
            ),
    {
        let mut fields: Vec<EmbedField> = Vec::new();
        push_field(&mut fields, EmbedField::new("Left", old_channel_id.get_interactive(), true));
        push_field(&mut fields, EmbedField::new("Joined", new_channel_id.get_interactive(), true));
        push_field(&mut fields, EmbedField::new("Display Name", user_id.get_interactive(), false));
        let embed = Embed {
            title: "Moved Voice Chat".to_string(),
            colour: Colour::Yellow,
            description: None,
            image: None,
            author: Some(author_of(user)),
            fields,
            footer: Some(footer_of(user_id.0)),
            timestamp: true,
        };
        assert(embed@.fields =~= seq![
            FieldView { name: "Left"@, value: channel_mention(old_channel_id.0), inline: true },
            FieldView { name: "Joined"@, value: channel_mention(new_channel_id.0), inline: true },
            FieldView { name: "Display Name"@, value: user_mention(user_id.0), inline: false },
        ]);
        embed
    }

    /// What is posted to the log channel about this event: `None` for an
    /// event that is not understood, about which nothing is posted.
    pub fn post_to_log_channel(&self, user: &User) -> (embed: Option<Embed>)
        ensures
            match embed {
                Some(embed) => voice_embed(*self, *user) == Some(embed@),
                None => voice_embed(*self, *user) is None,
            },
    {
        match self {
            Self::UserJoinedChannel(channel_id, user_id) => Some(
                Self::execute_user_joined_vc_log(channel_id, user, *user_id),
            ),
            Self::UserLeftChannel(channel_id, user_id) => Some(
                Self::execute_user_left_vc_log(channel_id, user, *user_id),
            ),
            Self::UserMovedChannel(old_channel_id, new_channel_id, user_id) => Some(
                Self::execute_user_moved_vc_log(old_channel_id, new_channel_id, user, *user_id),
            ),
            Self::Unknown => None,
        }
    }

    /// The channel that voice events are posted to, from its configured
    /// identifier; `None` where that names no channel.
    pub fn get_minor_event_channel(minor_events_channel: &str) -> (channel: Option<ChannelId>)
        ensures
            channel == match channel_id_in(minor_events_channel@) {
                Some(id) => Some(ChannelId(id)),
                None => None,
            },
    {
        configured_channel(minor_events_channel)
    }

    /// Reads a change of voice state: `old` is the state before, where it
    /// is known, `new` the state after.
    pub fn new(old: &Option<VoiceState>, new: &VoiceState) -> (event: Self)
        ensures
            event == voice_event_of(*old, *new),
    {
        if Self::is_user_joined(old, new) {
            Self::UserJoinedChannel(new.channel_id.unwrap(), new.user_id)
        } else if Self::is_user_left(old, new) {
            Self::UserLeftChannel(old.as_ref().unwrap().channel_id.unwrap(), new.user_id)
        } else if Self::is_user_moved(old, new) {
            Self::UserMovedChannel(
                old.as_ref().unwrap().channel_id.unwrap(),
                new.channel_id.unwrap(),
                new.user_id,
            )
        } else {
            Self::Unknown
        }
    }

    /// Whether the change is an entry into a channel.
    pub fn is_user_joined(old: &Option<VoiceState>, new: &VoiceState) -> (joined: bool)
        ensures
            joined == user_joined(*old, *new),
    {
        old.is_none() && new.channel_id.is_some()
    }

    /// Whether the change is a leave from a channel.
    pub fn is_user_left(old: &Option<VoiceState>, new: &VoiceState) -> (left: bool)
        ensures
            left == user_left(*old, *new),
    {
        if old.is_some() && new.channel_id.is_none() {
            if old.as_ref().unwrap().channel_id.is_some() {
                return true;
            }
        }
        false
    }

    /// Whether the change is a move between two channels.
    pub fn is_user_moved(old: &Option<VoiceState>, new: &VoiceState) -> (moved: bool)
        ensures
            moved == user_moved(*old, *new),
    {
        if old.is_some() && new.channel_id.is_some() {
            if old.as_ref().unwrap().channel_id.is_some() {
                if old.as_ref().unwrap().channel_id.unwrap() != new.channel_id.unwrap() {
                    return true;
                }
            }
        }
        false
    }
}

/// At most one of the three readings holds of a change, and the event is
/// `Unknown` exactly when none does.
pub proof fn lemma_voice_readings_exclusive(old: Option<VoiceState>, new: VoiceState)
    ensures
        !(user_joined(old, new) && user_left(old, new)),
        !(user_joined(old, new) && user_moved(old, new)),
        !(user_left(old, new) && user_moved(old, new)),
        voice_event_of(old, new) == VoiceEvent::Unknown <==> !user_joined(old, new) && !user_left(
            old,
            new,
        ) && !user_moved(old, new),
{
}

} // verus!
