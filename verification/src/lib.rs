//! A model of decentralized-identity documents: canonical key material
//! records, the documents that aggregate them, key resolution, and a
//! verified codec between documents and their JSON wire shape.

pub mod error;
pub mod json;
pub mod codec;
pub mod did;
pub mod keys;
pub mod resolve;
