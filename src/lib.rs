//! Upload coordination for a media ingestion service in front of an
//! S3-compatible object store: MIME negotiation, upload sessions and their
//! part-ordering state machine, the part-completion rendezvous, media
//! metadata decisions and the registration handshake with the backend.

pub mod text;
pub mod mime;
pub mod digest;
pub mod error;
pub mod config;
pub mod backend;
pub mod session;
pub mod partial_upload;
pub mod file_meta;
pub mod finish_upload;
pub mod preflight;
pub mod abort;
pub mod full_upload;
pub mod laws;
