//! Decoders for the values of single tags.
//!
//! A decoder never fails the message its tag came with: a value it cannot
//! read is reported as `None`, and the field it was meant for stays unset.

use crate::decimal::{i64_of_text, parse_i64, parse_u64, u64_of_text};
use crate::room_state::FollowersOnly;
use crate::time::duration_from_secs;
use std::time::Duration;
use vstd::prelude::*;
use vstd::string::*;

verus! {

const DIGIT_ONE: u8 = 0x31;

/// The flag that `text` stands for: set by the text `1`, clear for any other.
pub open spec fn flag_of_text(text: Seq<char>) -> bool {
    text.len() == 1 && text[0] == '1'
}

/// The span that `text` stands for when read as a number of seconds.
pub open spec fn seconds_of_text(text: Seq<char>) -> Option<Duration> {
    match u64_of_text(text) {
        Some(secs) => Some(duration_from_secs(secs)),
        None => None,
    }
}

/// The followers-only setting that `text` stands for when read as a signed
/// number of minutes.
pub open spec fn followers_only_of_text(text: Seq<char>) -> Option<FollowersOnly> {
    match i64_of_text(text) {
        Some(minutes) => FollowersOnly::of_minutes(minutes),
        None => None,
    }
}

/// A flag is set by the text `1` and by no other text.
pub proof fn lemma_flag_is_set_by_one_only(text: Seq<char>)
    ensures
        flag_of_text(text) <==> text == seq!['1'],
{
    if flag_of_text(text) {
        assert(text =~= seq!['1']);
    }
}

/// Decodes a flag: `true` for the text `1`, `false` for every other text.
pub fn parse_bool(text: &str) -> (r: bool)
    ensures
        r == flag_of_text(text@),
{
    broadcast use is_ascii_spec_bytes;

    if !text.is_ascii() {
        return false;
    }
    let bytes = text.as_bytes();
    bytes.len() == 1 && bytes[0] == DIGIT_ONE
}

/// Decodes a span given as a non-negative number of seconds.
///
/// A text that is no such number, or a number past `u64::MAX`, gives `None`.
pub fn parse_seconds(text: &str) -> (r: Option<Duration>)
    ensures
        r == seconds_of_text(text@),
{
    match parse_u64(text) {
        Some(secs) => Some(Duration::from_secs(secs)),
        None => None,
    }
}

/// Decodes a followers-only setting given as a signed number of minutes.
///
/// A text that is no such number gives `None`; a number is read as
/// [`FollowersOnly::from_minutes`] says.
pub fn parse_followers_only(text: &str) -> (r: Option<FollowersOnly>)
    ensures
        r == followers_only_of_text(text@),
{
    match parse_i64(text) {
        Some(minutes) => FollowersOnly::from_minutes(minutes),
        None => None,
    }
}

} // verus!
