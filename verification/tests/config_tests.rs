use redstone::cluster::client_config::ClusterClientConfig;
use redstone::error::cache_error::CacheError;

#[test]
fn config_new_keeps_settings() {
    let config = ClusterClientConfig::new(5, 750, 16);
    assert_eq!(config.max_retries, 5);
    assert_eq!(config.timeout_ms, 750);
    assert_eq!(config.virtual_node_count, 16);
}

#[test]
fn config_defaults() {
    let config = ClusterClientConfig::new_default();
    assert_eq!(config.max_retries, 3);
    assert_eq!(config.timeout_ms, 5000);
    assert_eq!(config.virtual_node_count, 50);

    assert_eq!(ClusterClientConfig::default(), config);
}

#[test]
fn cache_error_messages() {
    assert_eq!(CacheError::KeyAlreadyExists.message(), "Key already exists in cache");
    assert_eq!(CacheError::InvalidTensor.message(), "Invalid tensor");
    assert_eq!(CacheError::InvalidSize.message(), "Invalid tensor size");
    assert_eq!(
        CacheError::OutOfMemory.message(),
        "Out of memory, increase cache size to insert larger tensors"
    );
    assert_eq!(CacheError::InvalidTensorMetadata.message(), "Invalid tensor metadata");
}
