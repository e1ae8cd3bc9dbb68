pub mod bytes;
pub mod refs;
pub mod skip;
pub mod sync;
