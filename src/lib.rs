//! A multi-provider OAuth 2.0 authorization-code gateway with PKCE.
//!
//! The library holds the verified core: the provider registry and adapters,
//! the session-scoped flow-state store, the authorization initiator and the
//! callback processor. Network transport, cookies and configuration files are
//! left to the embedding program.
pub mod errors;
pub mod gateway;
pub mod json;
pub mod oauth;
pub mod primitives;
pub mod providers;
pub mod settings;
pub mod store;
