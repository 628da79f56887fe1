//! Verified decision and formatting logic of a Discord music bot: the
//! checks that gate each command, the edits it makes to the play queue,
//! the texts it sends, and the parsing of the positions a user types.

pub mod text;
pub mod timestamp;
pub mod player;
pub mod seek;
pub mod queue;
pub mod listing;
pub mod messages;
pub mod voice;
