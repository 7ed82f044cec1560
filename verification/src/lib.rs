//! The dispatch core of a chat bot: it recognises commands in incoming
//! messages, builds the reply to each, and follows the reply until the
//! platform has taken it or refused it.
//!
//! The library talks to no network. Its caller receives the messages, asks
//! the library what to do with each, performs the send, and tells the library
//! how the send went.

pub mod command;
pub mod dispatch;
pub mod error;
pub mod event;
pub mod ids;
pub mod response;
pub mod text;
