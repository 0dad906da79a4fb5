//! Typed decoding of channel settings updates from tokenized chat messages.
//!
//! A [`RoomState`] is a partial update to the settings of one channel: each
//! setting is either left unset, which means that the message did not mention
//! it, or set to its new value. [`RoomState::parse`] reads one from an
//! [`IrcMessageRef`] without copying any text, and [`RoomState::into_owned`]
//! turns the result into a value that outlives the buffer it was read from.

pub mod decimal;
pub mod decode;
pub mod irc;
pub mod room_state;
pub mod time;

pub use irc::{Command, IrcMessageRef, Tag};
pub use room_state::{FollowersOnly, MessageParseError, RoomState, RoomStateParts};
