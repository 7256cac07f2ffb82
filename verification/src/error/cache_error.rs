//! Failures of the local cache engine. Every failed operation returns one
//! of these and leaves the cache state unchanged.
use vstd::prelude::*;

verus! {

/// What a local cache operation can fail with.
#[derive(Clone, Copy, Debug, PartialEq, Eq, Structural)]
pub enum CacheError {
    /// A put named a key that is already resident.
    KeyAlreadyExists,
    /// A payload whose length does not match its metadata.
    InvalidTensor,
    /// Cache construction with zero capacity.
    InvalidSize,
    /// The tensor cannot fit, even after eviction.
    OutOfMemory,
    /// Metadata that violates the shape or overflow rules.
    InvalidTensorMetadata,
}

impl CacheError {
    /// A short description of the failure, as an owned string.
    pub fn message(&self) -> (r: &'static str)
        ensures
            r@ == self.spec_message(),
    {
        let s: &'static str = match self {
            CacheError::KeyAlreadyExists => "Key already exists in cache",
            CacheError::InvalidTensor => "Invalid tensor",
            CacheError::InvalidSize => "Invalid tensor size",
            CacheError::OutOfMemory => "Out of memory, increase cache size to insert larger tensors",
            CacheError::InvalidTensorMetadata => "Invalid tensor metadata",
        };
        s
    }

    /// The description `message` returns.
    pub open spec fn spec_message(&self) -> Seq<char> {
        match self {
            CacheError::KeyAlreadyExists => "Key already exists in cache"@,
            CacheError::InvalidTensor => "Invalid tensor"@,
            CacheError::InvalidSize => "Invalid tensor size"@,
            CacheError::OutOfMemory => "Out of memory, increase cache size to insert larger tensors"@,
            CacheError::InvalidTensorMetadata => "Invalid tensor metadata"@,
        }
    }
}

} // verus!
