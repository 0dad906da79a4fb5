//! A partial update to the settings of some channel.

use crate::decode::{
    flag_of_text, followers_only_of_text, lemma_flag_is_set_by_one_only, parse_bool,
    parse_followers_only, parse_seconds, seconds_of_text,
};
use crate::irc::{Command, IrcMessage, IrcMessageRef, Tag};
use crate::time::duration_from_secs;
use std::borrow::Cow;
use std::time::Duration;
use vstd::prelude::*;

verus! {

/// The seconds in one minute.
pub const SECONDS_PER_MINUTE: u64 = 60;

/// A message could not be read as the kind that was asked for.
#[derive(Clone, Copy, Debug, PartialEq, Eq)]
pub struct MessageParseError;

/// Followers-only mode configuration.
#[derive(Clone, Copy, Debug, PartialEq, Eq)]
pub enum FollowersOnly {
    /// Followers-only mode is disabled.
    ///
    /// Anyone can send chat messages within the bounds
    /// of the other chat settings.
    Disabled,
    /// Followers-only mode is enabled, with an optional duration.
    ///
    /// If the duration is `None`, then all followers can chat.
    /// Otherwise, only followers which have a follow age of at
    /// least the set duration can chat.
    Enabled(Option<Duration>),
}

impl FollowersOnly {
    /// The setting that a signed number of minutes stands for.
    ///
    /// A negative number disables the mode, zero enables it for every
    /// follower, and a positive number enables it for followers of at least
    /// that many minutes. A number of minutes whose seconds are past
    /// `u64::MAX` stands for no setting.
    pub open spec fn of_minutes(minutes: i64) -> Option<FollowersOnly> {
        if minutes < 0 {
            Some(FollowersOnly::Disabled)
        } else if minutes == 0 {
            Some(FollowersOnly::Enabled(None))
        } else if minutes * SECONDS_PER_MINUTE <= u64::MAX {
            Some(
                FollowersOnly::Enabled(
                    Some(duration_from_secs((minutes * SECONDS_PER_MINUTE) as u64)),
                ),
            )
        } else {
            None
        }
    }

    /// Reads a signed number of minutes as a followers-only setting.
    pub fn from_minutes(minutes: i64) -> (r: Option<FollowersOnly>)
        ensures
            r == Self::of_minutes(minutes),
    {
        if minutes < 0 {
            Some(FollowersOnly::Disabled)
        } else if minutes == 0 {
            Some(FollowersOnly::Enabled(None))
        } else {
            match (minutes as u64).checked_mul(SECONDS_PER_MINUTE) {
                Some(secs) => Some(FollowersOnly::Enabled(Some(Duration::from_secs(secs)))),
                None => None,
            }
        }
    }
}

/// What a [`RoomState`] holds, as mathematical values.
pub struct RoomStateView {
    pub channel: Seq<char>,
    pub channel_id: Seq<char>,
    pub emote_only: Option<bool>,
    pub followers_only: Option<FollowersOnly>,
    pub r9k: Option<bool>,
    pub slow: Option<Duration>,
    pub subs_only: Option<bool>,
}

/// The fields of a [`RoomState`], laid open.
///
/// This is the form in which a value is handed to and taken back from a
/// serialization layer. In every optional field `None` means that the setting
/// was not mentioned, which is not the same as a setting that was switched
/// off.
#[derive(Debug, PartialEq, Eq)]
pub struct RoomStateParts<'src> {
    pub channel: Cow<'src, str>,
    pub channel_id: Cow<'src, str>,
    pub emote_only: Option<bool>,
    pub followers_only: Option<FollowersOnly>,
    pub r9k: Option<bool>,
    pub slow: Option<Duration>,
    pub subs_only: Option<bool>,
}

impl<'src> View for RoomStateParts<'src> {
    type V = RoomStateView;

    open spec fn view(&self) -> RoomStateView {
        RoomStateView {
            channel: self.channel@,
            channel_id: self.channel_id@,
            emote_only: self.emote_only,
            followers_only: self.followers_only,
            r9k: self.r9k,
            slow: self.slow,
            subs_only: self.subs_only,
        }
    }
}

impl<'src> Clone for RoomStateParts<'src> {
    fn clone(&self) -> (r: Self)
        ensures
            r == *self,
    {
        RoomStateParts {
            channel: clone_text(&self.channel),
            channel_id: clone_text(&self.channel_id),
            emote_only: self.emote_only,
            followers_only: self.followers_only,
            r9k: self.r9k,
            slow: self.slow,
            subs_only: self.subs_only,
        }
    }
}

/// The flag that an optional tag value stands for.
pub open spec fn flag_of_tag(value: Option<Seq<char>>) -> Option<bool> {
    match value {
        Some(text) => Some(flag_of_text(text)),
        None => None,
    }
}

/// The span that an optional tag value stands for, read as seconds.
pub open spec fn seconds_of_tag(value: Option<Seq<char>>) -> Option<Duration> {
    match value {
        Some(text) => seconds_of_text(text),
        None => None,
    }
}

/// The followers-only setting that an optional tag value stands for.
pub open spec fn followers_only_of_tag(value: Option<Seq<char>>) -> Option<FollowersOnly> {
    match value {
        Some(text) => followers_only_of_text(text),
        None => None,
    }
}

/// Whether `message` can be read as a room state: it has the right command,
/// names a channel and carries the id of that channel.
pub open spec fn is_room_state(message: IrcMessage) -> bool {
    &&& message.command == Command::RoomState
    &&& message.channel is Some
    &&& message.tags.contains_key(Tag::RoomId)
}

/// The room state that `message` stands for, if it is one.
pub open spec fn room_state_of(message: IrcMessage) -> Option<RoomStateView> {
    if is_room_state(message) {
        Some(
            RoomStateView {
                channel: message.channel.unwrap(),
                channel_id: message.tags[Tag::RoomId],
                emote_only: flag_of_tag(message.tags.get(Tag::EmoteOnly)),
                followers_only: followers_only_of_tag(message.tags.get(Tag::FollowersOnly)),
                r9k: flag_of_tag(message.tags.get(Tag::R9K)),
                slow: seconds_of_tag(message.tags.get(Tag::Slow)),
                subs_only: flag_of_tag(message.tags.get(Tag::SubsOnly)),
            },
        )
    } else {
        None
    }
}

/// A copy of `text` that borrows what `text` borrows and owns what it owns.
fn clone_text<'a>(text: &Cow<'a, str>) -> (r: Cow<'a, str>)
    ensures
        r == *text,
{
    match text {
        Cow::Borrowed(s) => Cow::Borrowed(*s),
        Cow::Owned(s) => Cow::Owned(s.clone()),
    }
}

/// The text that `text` holds, borrowed or owned.
fn text_of<'a>(text: &'a Cow<'_, str>) -> (r: &'a str)
    ensures
        r@ == text@,
{
    match text {
        Cow::Borrowed(s) => s,
        Cow::Owned(s) => s.as_str(),
    }
}

/// A text that holds what `text` holds and borrows from nothing.
pub fn maybe_clone<'a>(text: Cow<'a, str>) -> (r: Cow<'static, str>)
    ensures
        r@ == text@,
        r is Owned,
        text is Owned ==> r == text,
{
    match text {
        Cow::Borrowed(s) => Cow::Owned(s.to_owned()),
        Cow::Owned(s) => Cow::Owned(s),
    }
}

/// A partial update to the settings of some channel.
#[derive(Debug, PartialEq, Eq)]
pub struct RoomState<'src> {
    channel: Cow<'src, str>,
    channel_id: Cow<'src, str>,
    emote_only: Option<bool>,
    followers_only: Option<FollowersOnly>,
    r9k: Option<bool>,
    slow: Option<Duration>,
    subs_only: Option<bool>,
}

impl<'src> Clone for RoomState<'src> {
    fn clone(&self) -> (r: Self)
        ensures
            r == *self,
    {
        proof {
            use_type_invariant(self);
        }
        RoomState {
            channel: clone_text(&self.channel),
            channel_id: clone_text(&self.channel_id),
            emote_only: self.emote_only,
            followers_only: self.followers_only,
            r9k: self.r9k,
            slow: self.slow,
            subs_only: self.subs_only,
        }
    }
}

impl<'src> View for RoomState<'src> {
    type V = RoomStateView;

    open spec fn view(&self) -> RoomStateView {
        self.parts()@
    }
}

impl<'src> RoomState<'src> {
    /// The fields of this value.
    pub closed spec fn parts(&self) -> RoomStateParts<'src> {
        RoomStateParts {
            channel: self.channel,
            channel_id: self.channel_id,
            emote_only: self.emote_only,
            followers_only: self.followers_only,
            r9k: self.r9k,
            slow: self.slow,
            subs_only: self.subs_only,
        }
    }

    /// The name of the channel is never empty.
    #[verifier::type_invariant]
    pub open spec fn well_formed(&self) -> bool {
        self.parts().channel@.len() > 0
    }

    /// Whether neither text field borrows from a buffer.
    pub open spec fn is_owned(&self) -> bool {
        self.parts().channel is Owned && self.parts().channel_id is Owned
    }

    /// Whether both text fields borrow from a buffer.
    pub open spec fn is_borrowed(&self) -> bool {
        self.parts().channel is Borrowed && self.parts().channel_id is Borrowed
    }

    /// Whether this value is an owned form of `state`: it holds what `state`
    /// holds and borrows nothing, and each text field that `state` owned is
    /// that very text, not a copy of it.
    pub open spec fn is_owned_form_of(&self, state: &RoomState<'_>) -> bool {
        &&& self@ == state@
        &&& self.is_owned()
        &&& state.parts().channel is Owned ==> self.parts().channel == state.parts().channel
        &&& state.parts().channel_id is Owned ==> self.parts().channel_id
            == state.parts().channel_id
    }

    /// The value that `parts` make up, if they name a channel.
    pub closed spec fn of_parts(parts: RoomStateParts<'src>) -> Option<RoomState<'src>> {
        if parts.channel@.len() > 0 {
            Some(
                RoomState {
                    channel: parts.channel,
                    channel_id: parts.channel_id,
                    emote_only: parts.emote_only,
                    followers_only: parts.followers_only,
                    r9k: parts.r9k,
                    slow: parts.slow,
                    subs_only: parts.subs_only,
                },
            )
        } else {
            None
        }
    }

    /// Reads `message` as a room state.
    ///
    /// Returns `None` when the message has another command, names no channel
    /// or lacks the `room-id` tag. Each of the other tags fills its field when
    /// it is there and can be read; a tag that is missing or unreadable leaves
    /// its field unset and does not fail the message. The text fields of the
    /// result borrow from the buffer of `message`.
    pub fn parse(message: IrcMessageRef<'src>) -> (r: Option<RoomState<'src>>)
        ensures
            r is Some <==> is_room_state(message@),
            r matches Some(state) ==> room_state_of(message@) == Some(state@)
                && state.is_borrowed(),
            message@.command != Command::RoomState ==> r is None,
            message@.channel is None || !message@.tags.contains_key(Tag::RoomId) ==> r is None,
    {
        if message.command() != Command::RoomState {
            return None;
        }
        Some(
            RoomState {
                channel: Cow::Borrowed(message.channel()?),
                channel_id: Cow::Borrowed(message.tag(Tag::RoomId)?),
                emote_only: message.tag(Tag::EmoteOnly).map(parse_bool),
                followers_only: message.tag(Tag::FollowersOnly).and_then(parse_followers_only),
                r9k: message.tag(Tag::R9K).map(parse_bool),
                slow: message.tag(Tag::Slow).and_then(parse_seconds),
                subs_only: message.tag(Tag::SubsOnly).map(parse_bool),
            },
        )
    }

    /// Reads `message` as a room state, or reports that it is none.
    ///
    /// Fails on exactly the messages for which [`RoomState::parse`] returns
    /// `None`.
    pub fn from_irc(message: IrcMessageRef<'src>) -> (r: Result<
        RoomState<'src>,
        MessageParseError,
    >)
        ensures
            r is Ok <==> is_room_state(message@),
            r matches Ok(state) ==> room_state_of(message@) == Some(state@)
                && state.is_borrowed(),
            message@.command != Command::RoomState ==> r is Err,
            message@.channel is None || !message@.tags.contains_key(Tag::RoomId) ==> r is Err,
    {
        match Self::parse(message) {
            Some(state) => Ok(state),
            None => Err(MessageParseError),
        }
    }

    /// Clone data to give the value a `'static` lifetime.
    ///
    /// A text field that is already owned is moved, not copied.
    pub fn into_owned(self) -> (r: RoomState<'static>)
        ensures
            r.is_owned_form_of(&self),
            self.is_owned() ==> r == self,
    {
        proof {
            use_type_invariant(&self);
        }
        RoomState {
            channel: maybe_clone(self.channel),
            channel_id: maybe_clone(self.channel_id),
            emote_only: self.emote_only,
            followers_only: self.followers_only,
            r9k: self.r9k,
            slow: self.slow,
            subs_only: self.subs_only,
        }
    }

    /// Puts a value together from its fields.
    ///
    /// Returns `None` when the channel name is empty, and for no other parts.
    pub fn from_parts(parts: RoomStateParts<'src>) -> (r: Option<RoomState<'src>>)
        ensures
            r == Self::of_parts(parts),
            r is Some <==> parts.channel@.len() > 0,
            r matches Some(state) ==> state.parts() == parts,
    {
        if text_of(&parts.channel).is_empty() {
            return None;
        }
        Some(
            RoomState {
                channel: parts.channel,
                channel_id: parts.channel_id,
                emote_only: parts.emote_only,
                followers_only: parts.followers_only,
                r9k: parts.r9k,
                slow: parts.slow,
                subs_only: parts.subs_only,
            },
        )
    }

    /// Takes the value apart into its fields.
    pub fn into_parts(self) -> (r: RoomStateParts<'src>)
        ensures
            r == self.parts(),
            r.channel@.len() > 0,
    {
        proof {
            use_type_invariant(&self);
        }
        RoomStateParts {
            channel: self.channel,
            channel_id: self.channel_id,
            emote_only: self.emote_only,
            followers_only: self.followers_only,
            r9k: self.r9k,
            slow: self.slow,
            subs_only: self.subs_only,
        }
    }

    /// Login of the channel this state was applied to.
    pub fn channel(&self) -> (r: &str)
        ensures
            r@ == self@.channel,
            r@.len() > 0,
    {
        proof {
            use_type_invariant(self);
        }
        text_of(&self.channel)
    }

    /// ID of the channel this state was applied to.
    pub fn channel_id(&self) -> (r: &str)
        ensures
            r@ == self@.channel_id,
    {
        text_of(&self.channel_id)
    }

    /// Whether the room is in emote-only mode.
    ///
    /// Chat messages may only contain emotes.
    ///
    /// - `None` means no change.
    /// - `Some` means enabled if `true`, and disabled if `false`.
    pub fn emote_only(&self) -> (r: Option<bool>)
        ensures
            r == self@.emote_only,
    {
        self.emote_only
    }

    /// Whether the room is in followers-only mode.
    ///
    /// Only followers (optionally with a minimum followage) can chat.
    ///
    /// - `None` means no change.
    /// - `Some` means some change, see [`FollowersOnly`] for more information
    ///   about possible values.
    pub fn followers_only(&self) -> (r: Option<FollowersOnly>)
        ensures
            r == self@.followers_only,
    {
        self.followers_only
    }

    /// Whether the room is in r9k mode.
    ///
    /// Only unique messages may be sent to chat.
    pub fn r9k(&self) -> (r: Option<bool>)
        ensures
            r == self@.r9k,
    {
        self.r9k
    }

    /// Whether the room is in slow mode.
    ///
    /// Users may only send messages with some minimum time between them.
    pub fn slow(&self) -> (r: Option<Duration>)
        ensures
            r == self@.slow,
    {
        self.slow
    }

    /// Whether the room is in subcriber-only mode.
    ///
    /// Users may only send messages if they have an active subscription.
    pub fn subs_only(&self) -> (r: Option<bool>)
        ensures
            r == self@.subs_only,
    {
        self.subs_only
    }
}

/// A message with any other command is no room state, whatever else it
/// holds.
pub proof fn lemma_other_command_is_rejected(message: IrcMessage)
    requires
        message.command != Command::RoomState,
    ensures
        !is_room_state(message),
        room_state_of(message) is None,
{
}

/// A message that names no channel, or that lacks the id of its channel, is
/// no room state, even with the right command.
pub proof fn lemma_missing_identifier_is_rejected(message: IrcMessage)
    requires
        message.channel is None || !message.tags.contains_key(Tag::RoomId),
    ensures
        !is_room_state(message),
        room_state_of(message) is None,
{
}

/// The room state of a message with a channel name has a channel name.
pub proof fn lemma_room_state_names_its_channel(message: IrcMessage)
    requires
        message.well_formed(),
        is_room_state(message),
    ensures
        room_state_of(message).unwrap().channel.len() > 0,
{
}

/// A flag tag that was sent always sets its field: to `true` when its value
/// is the text `1`, to `false` for every other value.
pub proof fn lemma_sent_flag_is_decoded(message: IrcMessage)
    requires
        is_room_state(message),
    ensures
        message.tags.contains_key(Tag::EmoteOnly) ==> room_state_of(message).unwrap().emote_only
            == Some(message.tags[Tag::EmoteOnly] == seq!['1']),
        message.tags.contains_key(Tag::R9K) ==> room_state_of(message).unwrap().r9k == Some(
            message.tags[Tag::R9K] == seq!['1'],
        ),
        message.tags.contains_key(Tag::SubsOnly) ==> room_state_of(message).unwrap().subs_only
            == Some(message.tags[Tag::SubsOnly] == seq!['1']),
{
    lemma_flag_is_set_by_one_only(message.tags[Tag::EmoteOnly]);
    lemma_flag_is_set_by_one_only(message.tags[Tag::R9K]);
    lemma_flag_is_set_by_one_only(message.tags[Tag::SubsOnly]);
}

/// A tag that was not sent leaves its field unset, which tells it apart from
/// a flag that was sent as `false` and from a mode that was sent as disabled:
/// a flag is unset only when its tag was not sent, and the other fields are
/// unset only when their tag was not sent or could not be read.
pub proof fn lemma_omitted_tag_leaves_field_unset(message: IrcMessage)
    requires
        is_room_state(message),
    ensures
        room_state_of(message).unwrap().emote_only is None <==> !message.tags.contains_key(
            Tag::EmoteOnly,
        ),
        room_state_of(message).unwrap().r9k is None <==> !message.tags.contains_key(Tag::R9K),
        room_state_of(message).unwrap().subs_only is None <==> !message.tags.contains_key(
            Tag::SubsOnly,
        ),
        room_state_of(message).unwrap().followers_only is None <==> !message.tags.contains_key(
            Tag::FollowersOnly,
        ) || followers_only_of_text(message.tags[Tag::FollowersOnly]) is None,
        room_state_of(message).unwrap().slow is None <==> !message.tags.contains_key(Tag::Slow)
            || seconds_of_text(message.tags[Tag::Slow]) is None,
{
}

/// A tag other than the id of the channel never decides whether a message is
/// a room state: sending it, with whatever value, fails no message.
pub proof fn lemma_optional_tag_fails_no_message(message: IrcMessage, tag: Tag, value: Seq<char>)
    requires
        tag != Tag::RoomId,
    ensures
        is_room_state(IrcMessage { tags: message.tags.insert(tag, value), ..message })
            == is_room_state(message),
{
}

/// An owned form of a value that borrows nothing is that value.
pub proof fn lemma_owned_form_of_owned(owned: RoomState<'_>, state: RoomState<'_>)
    requires
        owned.is_owned_form_of(&state),
        state.is_owned(),
    ensures
        owned == state,
{
}

/// Converting to the owned form a second time changes nothing.
pub proof fn lemma_into_owned_is_idempotent(
    state: RoomState<'_>,
    once: RoomState<'_>,
    twice: RoomState<'_>,
)
    requires
        once.is_owned_form_of(&state),
        twice.is_owned_form_of(&once),
    ensures
        twice == once,
        twice@ == state@,
{
    lemma_owned_form_of_owned(twice, once);
}

/// Taking a value apart and putting the parts together again gives the value
/// back: every field is unset or set as it was, and set to what it was.
pub proof fn lemma_parts_round_trip(state: RoomState<'_>)
    requires
        state.well_formed(),
    ensures
        RoomState::of_parts(state.parts()) == Some(state),
{
}

/// Parts put together and taken apart again are the same parts.
pub proof fn lemma_parts_are_kept(parts: RoomStateParts<'_>)
    requires
        parts.channel@.len() > 0,
    ensures
        RoomState::of_parts(parts) matches Some(state) && state.parts() == parts,
{
}

} // verus!
