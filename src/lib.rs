//! Ingestion of market trades from a streaming feed: decoding of inbound
//! frames, the subscription directives, and the decisions of the read loop.
pub mod json;
pub mod trade;
pub mod subscription;
pub mod supervisor;
pub mod laws;
pub mod error_handling;
