//! Authentication and lead-ingestion core of a small leads API server.
//!
//! The library decides; the server around it performs the I/O:
//! - [`api`]: decisions of the login, lead listing and lead creation endpoints;
//! - [`auth`]: bearer-token issuance and verification over a shared secret;
//! - [`json`]: a plain JSON document model read by the normalizer;
//! - [`normalize`]: per-platform extraction of a lead from a webhook payload;
//! - [`ingest`]: the per-call webhook ingestion state machine.
pub mod api;
pub mod auth;
pub mod ingest;
pub mod json;
pub mod normalize;
