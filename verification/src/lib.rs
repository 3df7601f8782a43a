//! Backend logic of a small social network.
//!
//! The heart of the crate is the real-time chat relay: a presence
//! [`registry`] that maps user identities to the delivery handles of their
//! open connections, and the per-connection [`session`] state machine that
//! authenticates a connection and relays chat and typing events through the
//! registry. Around it stand the wire [`protocol`], the bearer-token rules in
//! [`auth`] and the JSON document model in [`json`].
//!
//! The request handlers of the network share the plain data in [`models`]
//! and take their rules from [`accounts`] (registration and passwords) and
//! [`feed`] (visibility of posts and the shapes that are sent out).

pub mod accounts;
pub mod auth;
pub mod feed;
pub mod json;
pub mod models;
pub mod protocol;
pub mod registry;
pub mod session;
pub mod stamps;
pub mod text;
