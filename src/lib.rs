pub mod cancel;
pub mod corpus;
pub mod report;
pub mod runner;
pub mod sampling;
pub mod select;
pub mod size;
pub mod stats;

pub use corpus::Corpus;
pub use size::ToCompressedSize;
