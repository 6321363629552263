//! Normalisation of messaging-platform updates into a relational shape,
//! with the session and polling decisions that surround it.
//!
//! The functions here are verified against their contracts. The few calls
//! into other crates stand behind private wrappers, each with a doc comment
//! that says what is taken on trust. Work that needs the network, the file
//! system or a database engine is left to the caller, who hands plain values
//! in and takes plain values back.

pub mod text;
pub mod clock;
pub mod config;
pub mod models;
pub mod store;
pub mod message_processor;
pub mod telegram;
