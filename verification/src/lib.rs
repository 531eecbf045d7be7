//! Mutual TLS authentication: loading of trust anchors and identities, the
//! fail-closed connection lifecycle of a listener, and the pinned-trust
//! settings of a connector.

pub mod error;
pub mod role;
pub mod bindings;
pub mod text;
pub mod anchor;
pub mod identity;
pub mod connector;
pub mod listener;
pub mod settings;
