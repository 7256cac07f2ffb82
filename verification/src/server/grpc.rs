//! Maps wire requests to cache operations and engine results to wire
//! statuses. Every wire enum value translates to exactly one internal
//! value or to `InvalidArgument`; every engine error translates to
//! exactly one status code with a human-readable message.
use vstd::prelude::*;
use vstd::string::StringExecFns;
use vstd::slice::slice_to_vec;
use crate::cache::lru_cache::{cache_inv, spec_delete, spec_get, spec_put, CacheView};
use crate::cache::model::{has_key, total_bytes};
use crate::error::cache_error::CacheError;
use crate::error::client_error::StatusCode;
use crate::tensor::meta::{meta_valid, DType, StorageLayout, TensorMeta, TensorMetaView};
use crate::tensor::tensor::{tensor_fits, TensorView};
use crate::TensorCache;

verus! {

/// A non-OK wire response: status code and operator-readable message.
#[derive(Debug)]
pub struct WireStatus {
    pub code: StatusCode,
    pub message: String,
}

/// Tensor metadata as it crosses the wire: enum ordinals and 64-bit
/// dimensions.
#[derive(Debug)]
pub struct WireTensorMeta {
    pub dtype: i32,
    pub shape: Vec<u64>,
    pub layout: i32,
}

/// Wire request to look a key up.
#[derive(Debug)]
pub struct GetRequest {
    pub key: String,
}

/// Wire response to a successful get: the metadata and the payload.
#[derive(Debug)]
pub struct GetResponse {
    pub meta: Option<WireTensorMeta>,
    pub data: Vec<u8>,
}

/// Wire request to store a tensor under a key.
#[derive(Debug)]
pub struct PutRequest {
    pub key: String,
    pub meta: Option<WireTensorMeta>,
    pub data: Vec<u8>,
}

/// Wire response to a successful put.
#[derive(Debug)]
pub struct PutResponse {}

/// Wire request to remove a key.
#[derive(Debug)]
pub struct DeleteRequest {
    pub key: String,
}

/// Wire response to a delete: whether the key was resident.
#[derive(Debug)]
pub struct DeleteResponse {
    pub deleted: bool,
}

/// Wire request for a statistics snapshot.
#[derive(Debug)]
pub struct StatsRequest {}

/// Wire response carrying the engine counters. The two derived ratios
/// (hit rate, memory utilization) are computed by the transport from
/// these fields.
#[derive(Debug)]
pub struct StatsResponse {
    pub entries: u64,
    pub memory_used: u64,
    pub memory_limit: u64,
    pub hits: u64,
    pub misses: u64,
    pub evictions: u64,
}

/// Wire ordinal of an element type; ordinal 0 is reserved for the
/// unspecified value, which never translates.
pub open spec fn spec_dtype_code(d: DType) -> i32 {
    match d {
        DType::F32 => 1,
        DType::F64 => 2,
        DType::I32 => 3,
        DType::I64 => 4,
        DType::U8 => 5,
    }
}

/// The element type a wire ordinal names, if any.
pub open spec fn spec_parse_dtype(code: i32) -> Option<DType> {
    if code == 1 {
        Some(DType::F32)
    } else if code == 2 {
        Some(DType::F64)
    } else if code == 3 {
        Some(DType::I32)
    } else if code == 4 {
        Some(DType::I64)
    } else if code == 5 {
        Some(DType::U8)
    } else {
        None
    }
}

/// Wire ordinal of a storage layout.
pub open spec fn spec_layout_code(l: StorageLayout) -> i32 {
    match l {
        StorageLayout::RowMajor => 0,
        StorageLayout::ColumnMajor => 1,
    }
}

/// The storage layout a wire ordinal names, if any.
pub open spec fn spec_parse_layout(code: i32) -> Option<StorageLayout> {
    if code == 0 {
        Some(StorageLayout::RowMajor)
    } else if code == 1 {
        Some(StorageLayout::ColumnMajor)
    } else {
        None
    }
}

/// The metadata a wire metadata names: both ordinals must translate and
/// every dimension must fit the host word. (Validity of the shape itself
/// is a separate question.)
pub open spec fn spec_parse_wire_meta(w: WireTensorMeta) -> Option<TensorMetaView> {
    match (spec_parse_dtype(w.dtype), spec_parse_layout(w.layout)) {
        (Some(d), Some(l)) => {
            if forall|i: int| 0 <= i < w.shape@.len() ==> w.shape@[i] <= usize::MAX {
                Some(
                    TensorMetaView {
                        dtype: d,
                        shape: w.shape@.map_values(|x: u64| x as usize),
                        layout: l,
                    },
                )
            } else {
                None
            }
        },
        _ => None,
    }
}

/// A wire metadata value renders this internal metadata.
pub open spec fn wire_meta_matches(w: WireTensorMeta, m: TensorMetaView) -> bool {
    &&& w.dtype == spec_dtype_code(m.dtype)
    &&& w.layout == spec_layout_code(m.layout)
    &&& w.shape@ == m.shape.map_values(|d: usize| d as u64)
}

/// Every element type survives the round trip through its wire ordinal.
pub proof fn lemma_dtype_round_trip(d: DType)
    ensures
        spec_parse_dtype(spec_dtype_code(d)) == Some(d),
{
}

/// Every storage layout survives the round trip through its wire ordinal.
pub proof fn lemma_layout_round_trip(l: StorageLayout)
    ensures
        spec_parse_layout(spec_layout_code(l)) == Some(l),
{
}

/// Translates a wire element-type ordinal; unknown ordinals (the
/// unspecified value included) fail with `InvalidArgument`.
pub fn proto_to_dtype(dtype: i32) -> (r: Result<DType, WireStatus>)
    ensures
        match r {
            Ok(d) => spec_parse_dtype(dtype) == Some(d),
            Err(s) => spec_parse_dtype(dtype) is None && s.code == StatusCode::InvalidArgument
                && s.message@ == "Invalid dtype"@,
        },
{
    match dtype {
        1 => Ok(DType::F32),
        2 => Ok(DType::F64),
        3 => Ok(DType::I32),
        4 => Ok(DType::I64),
        5 => Ok(DType::U8),
        _ => Err(
            WireStatus {
                code: StatusCode::InvalidArgument,
                message: String::from_str("Invalid dtype"),
            },
        ),
    }
}

/// Translates a wire layout ordinal; unknown ordinals fail with
/// `InvalidArgument`.
pub fn proto_to_layout(layout: i32) -> (r: Result<StorageLayout, WireStatus>)
    ensures
        match r {
            Ok(l) => spec_parse_layout(layout) == Some(l),
            Err(s) => spec_parse_layout(layout) is None && s.code == StatusCode::InvalidArgument
                && s.message@ == "Invalid storage layout"@,
        },
{
    match layout {
        0 => Ok(StorageLayout::RowMajor),
        1 => Ok(StorageLayout::ColumnMajor),
        _ => Err(
            WireStatus {
                code: StatusCode::InvalidArgument,
                message: String::from_str("Invalid storage layout"),
            },
        ),
    }
}

/// Translates a whole wire metadata into validated internal metadata:
/// succeeds exactly when both ordinals translate, every dimension fits
/// the host word, and the resulting metadata is structurally valid.
pub fn proto_to_meta(proto_meta: &WireTensorMeta) -> (r: Result<TensorMeta, WireStatus>)
    ensures
        match spec_parse_wire_meta(*proto_meta) {
            Some(cv) => {
                &&& (r is Ok <==> meta_valid(cv))
                &&& (r is Ok ==> r->Ok_0@ == cv)
            },
            None => r is Err,
        },
        r is Err ==> r->Err_0.code == StatusCode::InvalidArgument,
{
    let dtype = match proto_to_dtype(proto_meta.dtype) {
        Ok(d) => d,
        Err(s) => {
            return Err(s);
        },
    };
    let layout = match proto_to_layout(proto_meta.layout) {
        Ok(l) => l,
        Err(s) => {
            return Err(s);
        },
    };
    let mut shape: Vec<usize> = Vec::new();
    let mut idx: usize = 0;
    while idx < proto_meta.shape.len()
        invariant
            0 <= idx <= proto_meta.shape@.len(),
            forall|k: int| 0 <= k < idx ==> proto_meta.shape@[k] <= usize::MAX,
            shape@ == proto_meta.shape@.take(idx as int).map_values(|x: u64| x as usize),
        decreases proto_meta.shape@.len() - idx,
    {
        let dim = proto_meta.shape[idx];
        if dim > usize::MAX as u64 {
            return Err(
                WireStatus {
                    code: StatusCode::InvalidArgument,
                    message: String::from_str("Invalid shape dimension"),
                },
            );
        }
        shape.push(dim as usize);
        proof {
            assert(shape@ =~= proto_meta.shape@.take(idx as int + 1).map_values(
                |x: u64| x as usize,
            ));
        }
        idx = idx + 1;
    }
    proof {
        assert(proto_meta.shape@.take(proto_meta.shape@.len() as int) =~= proto_meta.shape@);
    }
    match TensorMeta::new(dtype, shape, layout) {
        Ok(m) => Ok(m),
        Err(_) => Err(
            WireStatus {
                code: StatusCode::InvalidArgument,
                message: String::from_str("Invalid tensor metadata"),
            },
        ),
    }
}

/// Renders an element type as its wire ordinal.
pub fn dtype_to_proto(dtype: &DType) -> (r: i32)
    ensures
        r == spec_dtype_code(*dtype),
{
    match dtype {
        DType::F32 => 1,
        DType::F64 => 2,
        DType::I32 => 3,
        DType::I64 => 4,
        DType::U8 => 5,
    }
}

/// Renders a storage layout as its wire ordinal.
pub fn layout_to_proto(layout: &StorageLayout) -> (r: i32)
    ensures
        r == spec_layout_code(*layout),
{
    match layout {
        StorageLayout::RowMajor => 0,
        StorageLayout::ColumnMajor => 1,
    }
}

/// Renders internal metadata as wire metadata.
pub fn meta_to_proto(meta: &TensorMeta) -> (r: WireTensorMeta)
    ensures
        wire_meta_matches(r, meta@),
{
    let shape_slice = meta.shape();
    let mut shape: Vec<u64> = Vec::new();
    let mut idx: usize = 0;
    while idx < shape_slice.len()
        invariant
            0 <= idx <= shape_slice@.len(),
            shape@ == shape_slice@.take(idx as int).map_values(|d: usize| d as u64),
        decreases shape_slice@.len() - idx,
    {
        shape.push(shape_slice[idx] as u64);
        proof {
            assert(shape@ =~= shape_slice@.take(idx as int + 1).map_values(|d: usize| d as u64));
        }
        idx = idx + 1;
    }
    proof {
        assert(shape_slice@.take(shape_slice@.len() as int) =~= shape_slice@);
    }
    WireTensorMeta {
        dtype: dtype_to_proto(meta.dtype()),
        shape,
        layout: layout_to_proto(meta.layout()),
    }
}

/// The server: owns the cache and answers wire requests against it.
pub struct CacheServer {
    cache: TensorCache,
}

impl View for CacheServer {
    type V = CacheView;

    closed spec fn view(&self) -> CacheView {
        self.cache@
    }
}

impl CacheServer {
    /// The underlying cache is well-formed.
    pub closed spec fn wf(&self) -> bool {
        self.cache.wf()
    }

    /// Wraps a cache in a server.
    pub fn new(cache: TensorCache) -> (r: CacheServer)
        requires
            cache.wf(),
        ensures
            r.wf(),
            r@ == cache@,
    {
        CacheServer { cache }
    }

    /// Answers a get: a hit returns metadata and payload (refreshing the
    /// entry and counting a hit), a miss is `NotFound` naming the key.
    pub fn get(&mut self, request: GetRequest) -> (r: Result<GetResponse, WireStatus>)
        requires
            old(self).wf(),
        ensures
            final(self).wf(),
            cache_inv(final(self)@),
            final(self)@ == spec_get(old(self)@, request.key@).0,
            match spec_get(old(self)@, request.key@).1 {
                Some(t) => {
                    &&& r is Ok
                    &&& r->Ok_0.data@ == t.data
                    &&& r->Ok_0.meta is Some
                    &&& wire_meta_matches(r->Ok_0.meta->0, t.metadata)
                },
                None => {
                    &&& r is Err
                    &&& r->Err_0.code == StatusCode::NotFound
                    &&& r->Err_0.message@ == "Key not found in cache: "@ + request.key@
                },
            },
    {
        match self.cache.get(request.key.as_str()) {
            Some(tensor) => {
                let meta = meta_to_proto(tensor.get_metadata());
                let data = slice_to_vec(tensor.get_data());
                Ok(GetResponse { meta: Some(meta), data })
            },
            None => Err(
                WireStatus {
                    code: StatusCode::NotFound,
                    message: String::from_str("Key not found in cache: ").concat(
                        request.key.as_str(),
                    ),
                },
            ),
        }
    }

    /// Answers a put: translates the wire metadata, validates the
    /// tensor, stores it, and maps each engine failure to exactly one
    /// status code. Missing or untranslatable metadata and invalid
    /// tensors are `InvalidArgument`; a resident key is `AlreadyExists`;
    /// an oversized tensor is `ResourceExhausted`. Failures change
    /// nothing.
    pub fn put(&mut self, request: PutRequest) -> (r: Result<PutResponse, WireStatus>)
        requires
            old(self).wf(),
        ensures
            final(self).wf(),
            cache_inv(final(self)@),
            match request.meta {
                None => {
                    &&& r is Err
                    &&& r->Err_0.code == StatusCode::InvalidArgument
                    &&& final(self)@ == old(self)@
                },
                Some(pm) => match spec_parse_wire_meta(pm) {
                    None => {
                        &&& r is Err
                        &&& r->Err_0.code == StatusCode::InvalidArgument
                        &&& final(self)@ == old(self)@
                    },
                    Some(cv) => {
                        if !meta_valid(cv) || !tensor_fits(cv, request.data@) {
                            &&& r is Err
                            &&& r->Err_0.code == StatusCode::InvalidArgument
                            &&& final(self)@ == old(self)@
                        } else {
                            let t = (TensorView { metadata: cv, data: request.data@ });
                            &&& final(self)@ == spec_put(old(self)@, request.key@, t).0
                            &&& (spec_put(old(self)@, request.key@, t).1 is Ok <==> r is Ok)
                            &&& (spec_put(old(self)@, request.key@, t).1 == Err::<(), CacheError>(
                                CacheError::KeyAlreadyExists,
                            ) ==> r is Err && r->Err_0.code == StatusCode::AlreadyExists
                                && r->Err_0.message@ == "Key already exists: "@ + request.key@)
                            &&& (spec_put(old(self)@, request.key@, t).1 == Err::<(), CacheError>(
                                CacheError::OutOfMemory,
                            ) ==> r is Err && r->Err_0.code == StatusCode::ResourceExhausted
                                && r->Err_0.message@ == "Cache is full"@)
                        }
                    },
                },
            },
    {
        proof {
            self.cache.lemma_wf_implies_inv();
        }
        let proto_meta = match request.meta {
            Some(m) => m,
            None => {
                return Err(
                    WireStatus {
                        code: StatusCode::InvalidArgument,
                        message: String::from_str("Missing tensor metadata"),
                    },
                );
            },
        };
        let meta = match proto_to_meta(&proto_meta) {
            Ok(m) => m,
            Err(s) => {
                return Err(s);
            },
        };
        match self.cache.put(request.key.clone(), meta, request.data) {
            Ok(()) => Ok(PutResponse {  }),
            Err(e) => {
                match e {
                    CacheError::KeyAlreadyExists => Err(
                        WireStatus {
                            code: StatusCode::AlreadyExists,
                            message: String::from_str("Key already exists: ").concat(
                                request.key.as_str(),
                            ),
                        },
                    ),
                    CacheError::InvalidTensor => Err(
                        WireStatus {
                            code: StatusCode::InvalidArgument,
                            message: String::from_str("Invalid tensor data"),
                        },
                    ),
                    CacheError::InvalidSize => Err(
                        WireStatus {
                            code: StatusCode::InvalidArgument,
                            message: String::from_str("Invalid tensor size"),
                        },
                    ),
                    CacheError::OutOfMemory => Err(
                        WireStatus {
                            code: StatusCode::ResourceExhausted,
                            message: String::from_str("Cache is full"),
                        },
                    ),
                    CacheError::InvalidTensorMetadata => Err(
                        WireStatus {
                            code: StatusCode::InvalidArgument,
                            message: String::from_str("Invalid tensor metadata"),
                        },
                    ),
                }
            },
        }
    }

    /// Answers a delete: always OK, reporting whether the key was
    /// resident. Not an eviction; counters are untouched.
    pub fn delete(&mut self, request: DeleteRequest) -> (r: Result<DeleteResponse, WireStatus>)
        requires
            old(self).wf(),
        ensures
            final(self).wf(),
            cache_inv(final(self)@),
            final(self)@ == spec_delete(old(self)@, request.key@).0,
            r is Ok,
            r->Ok_0.deleted == has_key(old(self)@.entries, request.key@),
    {
        let deleted = self.cache.delete(request.key.as_str()).is_some();
        Ok(DeleteResponse { deleted })
    }

    /// Answers a statistics request with a consistent snapshot of the
    /// counters.
    pub fn get_stats(&self, _request: StatsRequest) -> (r: Result<StatsResponse, WireStatus>)
        requires
            self.wf(),
        ensures
            r is Ok,
            r->Ok_0.entries == self@.entries.len(),
            r->Ok_0.memory_used as nat == total_bytes(self@.entries),
            r->Ok_0.memory_used <= r->Ok_0.memory_limit,
            r->Ok_0.memory_limit == self@.max_bytes,
            r->Ok_0.hits == self@.hits,
            r->Ok_0.misses == self@.misses,
            r->Ok_0.evictions == self@.evictions,
    {
        let stats = self.cache.get_stats();
        Ok(
            StatsResponse {
                entries: stats.entries as u64,
                memory_used: stats.memory_used,
                memory_limit: stats.memory_limit,
                hits: stats.hits,
                misses: stats.misses,
                evictions: stats.evictions,
            },
        )
    }
}

} // verus!
