//! Identity and session lifecycle for an authentication gateway: the
//! authorization tier of an identity, the claims of a bearer token, the
//! code exchange with an identity provider, and the registry of sessions.

pub mod claims;
pub mod cloudflare;
pub mod decimal;
pub mod gateway;
pub mod json;
pub mod jwt;
pub mod models;
pub mod oidc;
pub mod session;
pub mod text;
pub mod tier;
pub mod time;
