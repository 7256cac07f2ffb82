//! The tensor data model: metadata (element type, shape, layout) and the
//! tensor itself (metadata plus a contiguous byte payload).
pub mod meta;
pub mod tensor;
