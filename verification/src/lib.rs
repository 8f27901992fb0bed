//! Serve a fixed, read-only set of named byte blobs over HTTP semantics:
//! path normalisation, conditional responses and a pluggable fallback.
//!
//! Every function of this crate carries a contract that Verus proves.

pub mod assets;
pub mod etag;
pub mod fallback_handler;
pub mod guarantees;
pub mod http;
pub mod media_type;
pub mod service;
pub mod slashes;

pub use assets::{AssetEntry, Assets};
pub use fallback_handler::{DefaultFallbackHandler, FallbackHandler};
pub use http::{Header, Request, Response};
pub use service::{Embed, EmbedService};
