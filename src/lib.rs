//! The Blowfish block cipher: the key schedule and the 16-round Feistel network over 64-bit
//! blocks, with contracts that state each operation over a mathematical model of the tables.
pub mod cipher;
pub mod error;
pub mod lemmas;
pub mod model;
pub mod tables;

pub use cipher::Blowfish;
pub use error::BlowfishError;
