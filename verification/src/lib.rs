//! Embedded per-file signing and verification for GLDF product containers.
//!
//! A GLDF container is an archive of independent files plus one structured
//! metadata document.  This library embeds one detached minisign signature per
//! file, keyed by path, inside that metadata document together with the public
//! key that produced them, and later validates the whole container
//! self-sufficiently from those embedded records.

pub mod text;
pub mod types;
pub mod model;
pub mod trusted;
pub mod core_ops;
pub mod laws;
