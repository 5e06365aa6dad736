//! Decoding of fungible-token account state.
//!
//! Two account encodings are understood: a fixed-width one, and an extensible
//! one whose fixed fields are followed by a stream of typed extension records.
//! Every decoder is a pure function of the bytes it is handed, and its contract
//! says, for every buffer, which record or which error comes back.

pub mod address;
pub mod bytes;
pub mod cli;
pub mod error;
pub mod extension;
pub mod mint;
pub mod text;
pub mod token_account;
