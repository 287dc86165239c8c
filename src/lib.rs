//! Core of a multi-tenant mock OpenID Connect provider: the tenant registry,
//! issuer URL resolution, token-flow dispatch and the id_token amendment of
//! token responses.

pub mod amend;
pub mod claims;
pub mod endpoints;
pub mod error;
pub mod flow;
pub mod registry;
pub mod server;
pub mod urls;
