use redstone::error::client_error::StatusCode;
use redstone::server::grpc::{
    dtype_to_proto, layout_to_proto, proto_to_dtype, proto_to_layout, proto_to_meta, meta_to_proto,
    CacheServer, DeleteRequest, GetRequest, PutRequest, StatsRequest, WireTensorMeta,
};
use redstone::tensor::meta::{DType, StorageLayout, TensorMeta};
use redstone::TensorCache;

#[test]
fn grpc_test_dtype_conversion() {
    let dtype = DType::F32;
    let proto = dtype_to_proto(&dtype);
    assert_eq!(proto, 1);

    let back = proto_to_dtype(proto).unwrap();
    assert_eq!(back, DType::F32);
}

#[test]
fn grpc_test_layout_conversion() {
    let layout = StorageLayout::RowMajor;
    let proto = layout_to_proto(&layout);
    assert_eq!(proto, 0);

    let back = proto_to_layout(proto).unwrap();
    assert_eq!(back, StorageLayout::RowMajor);
}

#[test]
fn server_test_dtype_conversion() {
    for dtype in [DType::F32, DType::F64, DType::I32, DType::I64, DType::U8] {
        let proto = dtype_to_proto(&dtype);
        let back = proto_to_dtype(proto).unwrap();
        assert_eq!(back, dtype);
    }
}

#[test]
fn server_test_layout_conversion() {
    for layout in [StorageLayout::RowMajor, StorageLayout::ColumnMajor] {
        let proto = layout_to_proto(&layout);
        let back = proto_to_layout(proto).unwrap();
        assert_eq!(back, layout);
    }
}

#[test]
fn unspecified_dtype_is_invalid_argument() {
    let r = proto_to_dtype(0);
    assert_eq!(r.unwrap_err().code, StatusCode::InvalidArgument);
    let r = proto_to_dtype(99);
    assert_eq!(r.unwrap_err().code, StatusCode::InvalidArgument);
    let r = proto_to_layout(7);
    assert_eq!(r.unwrap_err().code, StatusCode::InvalidArgument);
}

#[test]
fn wire_meta_round_trip() {
    let meta = TensorMeta::new(DType::I32, vec![3, 5], StorageLayout::ColumnMajor).unwrap();
    let wire = meta_to_proto(&meta);
    assert_eq!(wire.dtype, 3);
    assert_eq!(wire.shape, vec![3, 5]);
    assert_eq!(wire.layout, 1);

    let back = proto_to_meta(&wire).unwrap();
    assert_eq!(*back.dtype(), DType::I32);
    assert_eq!(back.shape(), &[3, 5]);
    assert_eq!(*back.layout(), StorageLayout::ColumnMajor);
}

#[test]
fn overflowing_wire_meta_is_invalid_argument() {
    let wire = WireTensorMeta { dtype: 2, shape: vec![u64::MAX, 2], layout: 0 };
    let r = proto_to_meta(&wire);
    assert_eq!(r.unwrap_err().code, StatusCode::InvalidArgument);
}

fn setup_server() -> CacheServer {
    CacheServer::new(TensorCache::new(1024))
}

fn valid_proto_meta() -> WireTensorMeta {
    WireTensorMeta { dtype: 1, shape: vec![2, 2], layout: 0 }
}

fn valid_tensor_bytes() -> Vec<u8> {
    vec![0u8; 16] // 2x2 f32 = 4 * 4 bytes
}

#[test]
fn server_put_then_get_success() {
    let mut server = setup_server();

    let put_req = PutRequest {
        key: "tensor1".to_string(),
        meta: Some(valid_proto_meta()),
        data: valid_tensor_bytes(),
    };

    let put_response = server.put(put_req);
    assert!(put_response.is_ok());

    let get_req = GetRequest { key: "tensor1".to_string() };

    let get_response = server.get(get_req);
    assert!(get_response.is_ok());

    let resp = get_response.unwrap();
    assert_eq!(resp.data.len(), 16);
    assert!(resp.meta.is_some());
}

#[test]
fn server_put_duplicate_key_fails() {
    let mut server = setup_server();

    let first = PutRequest {
        key: "dup".to_string(),
        meta: Some(valid_proto_meta()),
        data: valid_tensor_bytes(),
    };
    server.put(first).unwrap();

    let second = PutRequest {
        key: "dup".to_string(),
        meta: Some(valid_proto_meta()),
        data: valid_tensor_bytes(),
    };
    let status = server.put(second).unwrap_err();

    assert_eq!(status.code, StatusCode::AlreadyExists);
    assert_eq!(status.message, "Key already exists: dup");
}

#[test]
fn server_get_missing_returns_not_found() {
    let mut server = setup_server();

    let response = server.get(GetRequest { key: "missing".to_string() });

    let status = response.unwrap_err();
    assert_eq!(status.code, StatusCode::NotFound);
    assert_eq!(status.message, "Key not found in cache: missing");
}

#[test]
fn server_put_invalid_metadata_fails() {
    let mut server = setup_server();

    let bad_meta = WireTensorMeta { dtype: 0, shape: vec![2, 2], layout: 0 };

    let put_req = PutRequest {
        key: "bad".to_string(),
        meta: Some(bad_meta),
        data: valid_tensor_bytes(),
    };

    let status = server.put(put_req).unwrap_err();
    assert_eq!(status.code, StatusCode::InvalidArgument);
}

#[test]
fn server_put_missing_metadata_fails() {
    let mut server = setup_server();

    let put_req = PutRequest { key: "bad".to_string(), meta: None, data: valid_tensor_bytes() };

    let status = server.put(put_req).unwrap_err();
    assert_eq!(status.code, StatusCode::InvalidArgument);
    assert_eq!(status.message, "Missing tensor metadata");
}

#[test]
fn server_put_wrong_payload_is_invalid_argument() {
    let mut server = setup_server();

    let put_req = PutRequest {
        key: "short".to_string(),
        meta: Some(valid_proto_meta()),
        data: vec![0u8; 15],
    };

    let status = server.put(put_req).unwrap_err();
    assert_eq!(status.code, StatusCode::InvalidArgument);
    assert_eq!(status.message, "Invalid tensor data");
}

#[test]
fn server_put_oversized_is_resource_exhausted() {
    let mut server = CacheServer::new(TensorCache::new(8));

    let put_req = PutRequest {
        key: "big".to_string(),
        meta: Some(valid_proto_meta()),
        data: valid_tensor_bytes(),
    };

    let status = server.put(put_req).unwrap_err();
    assert_eq!(status.code, StatusCode::ResourceExhausted);
    assert_eq!(status.message, "Cache is full");
}

#[test]
fn server_delete_reports_residency() {
    let mut server = setup_server();

    let put_req = PutRequest {
        key: "gone".to_string(),
        meta: Some(valid_proto_meta()),
        data: valid_tensor_bytes(),
    };
    server.put(put_req).unwrap();

    let first = server.delete(DeleteRequest { key: "gone".to_string() }).unwrap();
    assert!(first.deleted);

    let second = server.delete(DeleteRequest { key: "gone".to_string() }).unwrap();
    assert!(!second.deleted);
}

#[test]
fn server_stats_endpoint_works() {
    let server = setup_server();

    let response = server.get_stats(StatsRequest {});

    assert!(response.is_ok());

    let stats = response.unwrap();
    assert_eq!(stats.entries, 0);
    assert_eq!(stats.hits, 0);
    assert_eq!(stats.misses, 0);
}

#[test]
fn server_stats_follow_traffic() {
    let mut server = setup_server();

    let put_req = PutRequest {
        key: "t".to_string(),
        meta: Some(valid_proto_meta()),
        data: valid_tensor_bytes(),
    };
    server.put(put_req).unwrap();
    server.get(GetRequest { key: "t".to_string() }).unwrap();
    let _ = server.get(GetRequest { key: "absent".to_string() });

    let stats = server.get_stats(StatsRequest {}).unwrap();
    assert_eq!(stats.entries, 1);
    assert_eq!(stats.memory_used, 16);
    assert_eq!(stats.memory_limit, 1024);
    assert_eq!(stats.hits, 1);
    assert_eq!(stats.misses, 1);
    assert_eq!(stats.evictions, 0);
}
