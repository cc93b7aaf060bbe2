//! Server side of an OAuth2 authorization-code login with PKCE.
//!
//! The crate holds the decisions of the flow: how an authorization request is
//! created and recorded, how a callback is matched against it exactly once,
//! how the provider's answers are classified, and how a remote identity is
//! reconciled with a local account. Network and database traffic stay with the
//! caller, who performs each requested action and hands the outcome back.

pub mod error;
pub mod outside;
pub mod profile;
pub mod store;
pub mod text;
pub mod config;
pub mod token;
pub mod directory;
pub mod flow;
pub mod login;
