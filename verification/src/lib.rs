pub mod digest;
pub mod sketch;

pub use digest::DefaultDigest;
pub use digest::DigestStrategy;
pub use sketch::Cardinality;
pub use sketch::HyperLogLog;
pub use sketch::SketchError;
pub use sketch::SketchView;
