//! The two pipelines: unpacking an archive and packing a directory.

pub mod builder;
pub mod extractor;

pub use builder::Builder;
pub use extractor::Extractor;
