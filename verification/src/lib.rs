//! A paged carousel of games whose pictures arrive in the background.
//!
//! Two things cooperate here. A [`photo::Photo`] is a slot that is filled at
//! most once by a download running elsewhere, and that can be asked at any
//! time, without waiting, for what to show. A [`lineup::Schedule`] is a list
//! of games with a single cursor, from which the page on screen and the game
//! in focus are derived.
//!
//! Nothing in this crate touches the network or the screen. A download is
//! handed out as a [`photo::FetchJob`], to be run by the caller and
//! completed with what the transport reported; a page is handed out as
//! [`lineup::Snippet`]s, to be drawn by the caller.

pub mod feed;
pub mod fetch;
pub mod handoff;
pub mod lineup;
pub mod photo;
pub mod picture;
pub mod window;
