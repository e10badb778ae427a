//! A JSON-RPC foreign-call oracle: decoding of hex-encoded field elements,
//! validation of claim requests, dispatch to claim kinds and a token store.
pub mod decode;
pub mod json;
pub mod store;
pub mod claim;
pub mod laws;
