//! A verified local credential store: authenticated encryption of passwords
//! (libsodium's secretbox behind base64 text encoding) and a CRUD record
//! table keyed by unique titles, with the command decisions that tie the two
//! together.

pub mod cipher;
pub mod commands;
pub mod encoding;
pub mod sodium;
pub mod store;
