//! Relay of a mailing list's inbox to its subscribers.
//!
//! A watcher follows one mailbox. Whenever the mailbox shows a newest message
//! that the watcher has not yet handled, the message is fetched, reduced to
//! the fields worth forwarding, and sent on to every subscriber of the list.
//!
//! The crate holds the decisions of that process and leaves the network to
//! its caller: [`watch::Watcher::step`] takes what the outside world answered
//! and says what to do next.

pub mod address;
pub mod cursor;
pub mod extract;
pub mod forward;
pub mod mime;
pub mod models;
pub mod theorems;
pub mod watch;
