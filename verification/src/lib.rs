//! Self-describing hash digests: the type-safe digest and algorithm
//! wrappers, the library's error type, and the text they render to.

pub mod codec;
pub mod deserialize;
pub mod digest_order;
pub mod error;
pub mod text;
pub mod types;

pub use codec::CodecEntry;
pub use error::Error;
pub use types::{AlgorithmId, HashDigest};
