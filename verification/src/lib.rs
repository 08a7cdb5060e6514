//! A local secret manager for one user, built around age encryption.
//!
//! Each secret is a record, stored as one encrypted file in a store
//! directory and named by its label. The private key may be wrapped with a
//! passphrase, in which case an agent holds the unwrapped key and hands it
//! out to clients of the same user over a socket.
//!
//! This library holds the rules and leaves the reading and writing to its
//! caller: it takes what was read as plain values, and says what to write.
//! Its functions are verified against their contracts; what it takes on
//! trust from the crates beneath it is marked as such where it stands.
//!
//! - [`record`]: records and their JSON form.
//! - [`backend`]: key pairs, wrapped keys, encryption of records.
//! - [`session`]: the store of records, and how a session starts.
//! - [`protocol`], [`agent`]: the messages of the agent, and what the agent
//!   and its clients do with them.
//! - [`config`], [`generator`], [`input`], [`command`], [`util`]: the
//!   configuration, generated secrets, terse input, and what the commands
//!   decide and print.
//! - [`error`], [`json`], [`text`]: errors, JSON lookups, and strings.

pub mod agent;
pub mod backend;
pub mod command;
pub mod config;
pub mod error;
pub mod generator;
pub mod input;
pub mod json;
pub mod protocol;
pub mod record;
pub mod session;
pub mod text;
pub mod util;
