//! Change-detection notifier for a tournament-listing website.
//!
//! The library holds the verified core of the bot: evaluating a login
//! response, extracting the latest tournament record from the page,
//! deciding whether the record is new, formatting the notification
//! message, and the poll-loop state machine that ties those together.
//! Network transport, chat delivery and process bootstrap live outside
//! the library and only hand plain values in and out.

pub mod control;
pub mod extract;
pub mod html;
pub mod notify;
pub mod record;
pub mod response;
pub mod text;
