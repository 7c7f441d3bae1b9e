//! A typed command and response layer for the administrative control
//! channel of a storage cluster.
//!
//! The library does no input or output. An operation is a function that
//! builds the command to send (`cmd`, `command`); a mutation then passes the
//! simulation gate, which in a dry run ends the call before anything is sent
//! (`gate`); and the reply that the caller's transport hands back is
//! interpreted by the operation's reply function (`reply`), which reads the
//! first line of the primary text as the operation asks: as it is, as a
//! number, or as a structured document (`json`) decoded to a response model
//! (`model`). The enumerations that travel as tokens are in `token`.
pub mod cmd;
pub mod command;
pub mod gate;
pub mod json;
pub mod model;
pub mod reply;
pub mod text;
pub mod token;
