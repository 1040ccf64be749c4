//! Verified core of a room-based terminal chat: end-to-end message
//! encryption, client state, server routing and administration rules.

pub mod crypto;
pub mod text;
pub mod clock;
pub mod editor;
pub mod protocol;
pub mod client;
pub mod login;
pub mod layout;
pub mod registry;
pub mod server;
pub mod relay;
pub mod admin;
pub mod contacts;
pub mod monitor;
