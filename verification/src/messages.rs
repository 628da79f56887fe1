//! The texts the bot sends.

use vstd::prelude::*;

verus! {

pub const EMPTY_QUEUE: &'static str = "The queue is empty :( \n use /play to add songs to queue";
pub const BOT_NOT_IN_VOCIE: &'static str = "The bot is not in voice channel :/";
pub const USER_NOT_IN_VOCIE: &'static str = "You are not in voice channel";
pub const ALREADY_PLAYING: &'static str = "The bot already running in another channel";

/// Sent by the play command to a user outside any voice channel.
pub const PLAY_NOT_IN_VOICE: &'static str = "You are not in voice";
/// Sent by the play command before it loads a track.
pub const LOADING: &'static str = "Loading...";
/// Sent by the play command when joining the voice channel failed.
pub const COULD_NOT_JOIN: &'static str = "Could not join";
/// Sent after the player paused.
pub const PAUSED: &'static str = ":pause_button: Paused the player";
/// Sent after the bot left the voice channel.
pub const LEFT_VOICE: &'static str = ":skull_crossbones: Left Voice ";
/// Sent when a seek position cannot be read.
pub const SEEK_PARSE_ERROR: &'static str = "Couldn't parse time";
/// Sent after looping was switched off.
pub const LOOP_DISABLED: &'static str = ":repeat:  Disabled loop :negative_squared_cross_mark:";
/// Sent after looping was switched on.
pub const LOOP_ENABLED: &'static str = ":repeat:  Enabled loop :white_check_mark:";

} // verus!
