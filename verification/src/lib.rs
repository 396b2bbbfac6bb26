//! Acquisition pipeline for a discoverable multi-channel sample stream:
//! stream discovery and matching, metadata extraction, duplicate
//! suppression and batching of samples, and the connect/disconnect
//! session lifecycle.

pub mod directory;
pub mod numfmt;
pub mod sampling;
pub mod session;
pub mod xml;
