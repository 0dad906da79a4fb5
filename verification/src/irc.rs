//! The tokenized form of one chat message, as the typed decoders consume it.
//!
//! A message carries a command, at most one channel name and a set of tags.
//! Everything textual is borrowed from the buffer the message was read from;
//! splitting a raw line into these parts is the tokenizer's business and does
//! not happen here.

use vstd::prelude::*;

verus! {

/// The command of a message: what kind of message it is.
#[derive(Clone, Copy, Debug, PartialEq, Eq, Structural)]
pub enum Command {
    Ping,
    Pong,
    Join,
    Part,
    Privmsg,
    Whisper,
    ClearChat,
    ClearMsg,
    GlobalUserState,
    Notice,
    Reconnect,
    RoomState,
    UserNotice,
    UserState,
    /// Any command without a typed form.
    Other,
}

/// The tags that carry channel settings, by meaning rather than by wire name.
#[derive(Clone, Copy, Debug, PartialEq, Eq, Structural)]
pub enum Tag {
    /// `emote-only`: whether messages may hold only emotes.
    EmoteOnly,
    /// `followers-only`: who among the followers may chat, in minutes of
    /// follow age.
    FollowersOnly,
    /// `r9k`: whether messages must be unique.
    R9K,
    /// `room-id`: the numeric id of the channel.
    RoomId,
    /// `slow`: the seconds a user must wait between messages.
    Slow,
    /// `subs-only`: whether only subscribers may chat.
    SubsOnly,
}

/// What a message holds, as mathematical values.
pub struct IrcMessage {
    pub command: Command,
    /// The channel name, when the message has one.
    pub channel: Option<Seq<char>>,
    /// The value of each tag that was sent.
    pub tags: Map<Tag, Seq<char>>,
}

impl IrcMessage {
    /// A channel name, where there is one, is not empty.
    pub open spec fn well_formed(self) -> bool {
        self.channel matches Some(name) ==> name.len() > 0
    }
}

/// The tags that a list of `(tag, value)` entries stands for. Where a tag
/// occurs more than once, its first entry counts.
pub open spec fn tag_map(entries: Seq<(Tag, &str)>) -> Map<Tag, Seq<char>>
    decreases entries.len(),
{
    if entries.len() == 0 {
        Map::empty()
    } else {
        tag_map(entries.skip(1)).insert(entries[0].0, entries[0].1@)
    }
}

/// The channel that a message built from `channel` reports: an empty name
/// counts as none.
pub open spec fn channel_of(channel: Option<&str>) -> Option<Seq<char>> {
    match channel {
        Some(name) => if name@.len() > 0 {
            Some(name@)
        } else {
            None
        },
        None => None,
    }
}

/// Entries that do not name `tag` can be skipped without changing what
/// `tag` maps to.
proof fn lemma_skip_other_tags(entries: Seq<(Tag, &str)>, tag: Tag, k: int)
    requires
        0 <= k <= entries.len(),
        forall|j: int| 0 <= j < k ==> (#[trigger] entries[j]).0 != tag,
    ensures
        tag_map(entries).get(tag) == tag_map(entries.skip(k)).get(tag),
    decreases k,
{
    if k == 0 {
        assert(entries.skip(0) =~= entries);
    } else {
        let rest = entries.skip(1);
        lemma_skip_other_tags(rest, tag, k - 1);
        assert(rest.skip(k - 1) =~= entries.skip(k));
    }
}

/// A borrowed view of one tokenized message.
#[derive(Debug)]
pub struct IrcMessageRef<'src> {
    command: Command,
    channel: Option<&'src str>,
    tags: Vec<(Tag, &'src str)>,
}

impl<'src> View for IrcMessageRef<'src> {
    type V = IrcMessage;

    closed spec fn view(&self) -> IrcMessage {
        IrcMessage {
            command: self.command,
            channel: channel_of(self.channel),
            tags: tag_map(self.tags@),
        }
    }
}

impl<'src> IrcMessageRef<'src> {
    /// A channel name, where there is one, is not empty.
    #[verifier::type_invariant]
    pub closed spec fn well_formed(&self) -> bool {
        self.channel matches Some(name) ==> name@.len() > 0
    }

    /// Puts a message together from its parts.
    ///
    /// `tags` lists the tags in the order they were sent; of a tag sent more
    /// than once the first value is kept. An empty channel name is recorded as
    /// no channel.
    pub fn new(
        command: Command,
        channel: Option<&'src str>,
        tags: Vec<(Tag, &'src str)>,
    ) -> (r: Self)
        ensures
            r@ == (IrcMessage { command, channel: channel_of(channel), tags: tag_map(tags@) }),
            r@.well_formed(),
    {
        let channel = match channel {
            Some(name) => if name.is_empty() {
                None
            } else {
                Some(name)
            },
            None => None,
        };
        IrcMessageRef { command, channel, tags }
    }

    /// Every message names a channel that is not empty, or none.
    pub proof fn lemma_view_is_well_formed(&self)
        ensures
            self@.well_formed(),
    {
    }

    /// The command of the message.
    pub fn command(&self) -> (r: Command)
        ensures
            r == self@.command,
    {
        self.command
    }

    /// The channel the message was sent to, if it names one.
    pub fn channel(&self) -> (r: Option<&'src str>)
        ensures
            r is Some <==> self@.channel is Some,
            r matches Some(name) ==> self@.channel == Some(name@) && name@.len() > 0,
    {
        proof {
            use_type_invariant(self);
        }
        self.channel
    }

    /// The value of `tag`, if the message carries that tag.
    pub fn tag(&self, tag: Tag) -> (r: Option<&'src str>)
        ensures
            r is Some <==> self@.tags.contains_key(tag),
            r matches Some(value) ==> self@.tags[tag] == value@,
    {
        let mut i: usize = 0;
        while i < self.tags.len()
            invariant
                i <= self.tags.len(),
                forall|j: int| 0 <= j < i ==> (#[trigger] self.tags@[j]).0 != tag,
            decreases self.tags.len() - i,
        {
            if self.tags[i].0 == tag {
                proof {
                    lemma_skip_other_tags(self.tags@, tag, i as int);
                }
                return Some(self.tags[i].1);
            }
            i = i + 1;
        }
        proof {
            lemma_skip_other_tags(self.tags@, tag, i as int);
        }
        None
    }
}

} // verus!
