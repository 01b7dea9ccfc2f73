//! Batch PNG recompression and WebP conversion: the queue-draining worker
//! pool and the rule that picks which encoding of an image is kept.

pub mod convert;
pub mod encoder;
pub mod model;
pub mod path;
pub mod pipeline;
pub mod pool;
pub mod queue;
pub mod select;
pub mod worker;
