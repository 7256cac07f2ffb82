use redstone::error::client_error::StatusCode;
use redstone::transport::{
    delete_failure_message, get_failure_disposition, put_failure_message, stats_failure_message,
};

#[test]
fn get_not_found_is_absent() {
    assert!(get_failure_disposition(StatusCode::NotFound, "no such key").is_none());
}

#[test]
fn get_other_failures_carry_message() {
    let msg = get_failure_disposition(StatusCode::Internal, "boom").unwrap();
    assert_eq!(msg, "Get failed: boom");
}

#[test]
fn put_failure_messages_by_code() {
    assert_eq!(
        put_failure_message(StatusCode::AlreadyExists, "k1", "ignored"),
        "Key 'k1' already exists"
    );
    assert_eq!(put_failure_message(StatusCode::ResourceExhausted, "k1", "ignored"), "Cache is full");
    assert_eq!(
        put_failure_message(StatusCode::InvalidArgument, "k1", "bad shape"),
        "Invalid tensor: bad shape"
    );
    assert_eq!(
        put_failure_message(StatusCode::Unavailable, "k1", "try later"),
        "Put failed: try later"
    );
}

#[test]
fn delete_and_stats_failure_messages() {
    assert_eq!(delete_failure_message("nope"), "Delete failed: nope");
    assert_eq!(stats_failure_message("nope"), "Get statistics failed: nope");
}
