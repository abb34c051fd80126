//! Decision logic of a notebook generator: the prompt sent to a chat model,
//! the clean-up of the reply, and the protocol by which the reply becomes a
//! notebook file through an external converter.
//!
//! Nothing here performs I/O. A driver performs each requested effect and
//! reports what happened; every decision in between is made, and proved, here.

pub mod chat;
pub mod command;
pub mod command_laws;
pub mod fence;
pub mod fence_laws;
pub mod materialize;
pub mod materialize_laws;
pub mod message;
pub mod prompt;
pub mod text;
pub mod transient;
