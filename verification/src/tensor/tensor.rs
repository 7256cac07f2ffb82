//! The tensor itself: a metadata value paired with a contiguous byte
//! payload whose length equals exactly the byte size the metadata implies.
use vstd::prelude::*;
use crate::tensor::meta::{byte_size_fits, meta_byte_size, TensorMeta, TensorMetaView};

verus! {

/// Mathematical image of a `Tensor`.
pub struct TensorView {
    pub metadata: TensorMetaView,
    pub data: Seq<u8>,
}

/// A payload fits its metadata: the byte size is computable and the
/// payload length equals it. Exactly the condition under which a tensor
/// can be constructed.
pub open spec fn tensor_fits(m: TensorMetaView, data: Seq<u8>) -> bool {
    byte_size_fits(m) && data.len() == meta_byte_size(m)
}

/// A tensor: metadata plus its payload bytes. Immutable after
/// construction; `new` rejects a payload whose length does not match the
/// metadata's byte size.
#[derive(Debug)]
pub struct Tensor {
    metadata: TensorMeta,
    data: Vec<u8>,
}

impl View for Tensor {
    type V = TensorView;

    closed spec fn view(&self) -> TensorView {
        TensorView { metadata: self.metadata@, data: self.data@ }
    }
}

impl Tensor {
    /// Pairs metadata with a payload, succeeding exactly when the payload
    /// length equals the byte size the metadata implies (and that size is
    /// computable at all).
    pub fn new(metadata: TensorMeta, data: Vec<u8>) -> (r: Result<Tensor, &'static str>)
        ensures
            r is Ok <==> tensor_fits(metadata@, data@),
            r is Ok ==> r->Ok_0@ == (TensorView { metadata: metadata@, data: data@ }),
    {
        let data_len = data.len();
        let expected = match metadata.total_byte_size() {
            Ok(b) => b,
            Err(e) => {
                return Err(e);
            },
        };
        if data_len != expected {
            return Err(
                "Data length does not match expected length (calculated from tensor metadata)",
            );
        }
        Ok(Tensor { metadata, data })
    }

    /// The metadata this tensor was built with.
    pub fn get_metadata(&self) -> (r: &TensorMeta)
        ensures
            r@ == self@.metadata,
    {
        &self.metadata
    }

    /// The payload bytes.
    pub fn get_data(&self) -> (r: &[u8])
        ensures
            r@ == self@.data,
    {
        self.data.as_slice()
    }

    /// Length of the payload in bytes; this is the size a cache entry
    /// records for the tensor.
    pub fn byte_size(&self) -> (r: usize)
        ensures
            r == self@.data.len(),
    {
        self.data.len()
    }
}

} // verus!
