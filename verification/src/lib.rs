//! Core of a match-room overlay: it follows a game client's log, recognises the
//! chat broadcast that lists the players of a room, and turns the statistics
//! service's answers into classified player records.
//!
//! The library does no input or output. Its two long-running parts are state
//! machines that a driver runs: [`tail::LogTailer`] follows a log file, and
//! [`fetch::FetchBatch`] fetches the statistics of a list of names. Each says
//! what is to be done next and takes what came of it.
//!
//! - [`source`]: where the log of each client lies
//! - [`lines`], [`tail`]: cutting what is read into lines; following a log
//! - [`chat`]: what a line of the chat says
//! - [`json`]: JSON documents, as `serde_json` reads them
//! - [`player`], [`stats`], [`color`]: player records and their parts
//! - [`fetch`]: fetching the records of a room
//! - [`roster`], [`overlay`], [`settings`]: the list shown, and the overlay's state
//! - [`release`], [`dates`]: newer releases; dates of logins
//! - [`text`]: operations on text that the others share

pub mod chat;
pub mod color;
pub mod dates;
pub mod fetch;
pub mod json;
pub mod lines;
pub mod overlay;
pub mod player;
pub mod release;
pub mod roster;
pub mod settings;
pub mod source;
pub mod stats;
pub mod tail;
pub mod text;
