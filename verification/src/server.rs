//! The server surface: wire request and response shapes, the total
//! translation between wire enums and the tensor model, and the mapping
//! from engine results to wire status codes.
pub mod grpc;
