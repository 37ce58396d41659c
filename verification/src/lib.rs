//! Population-count kernel for flat integer buffers.
//!
//! The library counts the one bits across a contiguous buffer of
//! fixed-width integers (8, 16, 32 or 64 bits, signed or unsigned),
//! either sequentially or with a data-parallel reduction, and rejects
//! buffers whose element type is unsupported or that admit no flat
//! contiguous view.

pub mod buffer;
pub mod dispatch;
pub mod dtype;
pub mod parallel;
pub mod popcount;

pub use buffer::IntBuffer;
pub use dispatch::ArrayView;
pub use dispatch::count_ones;
pub use dispatch::count_ones_parallel;
pub use dispatch::count_ones_spec;
pub use dispatch::version;
pub use dtype::CountError;
pub use dtype::Dtype;
pub use popcount::pop_nat;
pub use popcount::pop_seq;
