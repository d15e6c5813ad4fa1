//! Organization-bound identity, OAuth sign-in decisions, meeting sync payloads and
//! transcript enhancement batching for the Meetingly desktop client.

pub mod codec;
pub mod enhancement;
pub mod error;
pub mod identity;
pub mod laws;
pub mod oauth;
pub mod sync;
pub mod text;
