//! View-model core of a terminal browser for encrypted password safes.
//!
//! The crate holds the state machines behind the two screens (the passphrase
//! prompt and the credential browser), the controller that switches between
//! them, and the decisions of the fixed-rate event loop. Every function is
//! verified against a contract stated over mathematical models of the state.

pub mod contracts;
pub mod keys;
pub mod layout;
pub mod list_content;
pub mod model;
pub mod password_input;
pub mod stateful_list;
pub mod text;
pub mod view_models;
