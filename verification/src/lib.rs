//! Verified core of a lightweight HTTP gateway that fronts a local Cardano
//! node over its node-to-client socket, exposing a Blockfrost-compatible
//! REST surface for transaction submission and liveness reporting.

pub mod api_root;
pub mod cbor;
pub mod common;
pub mod config;
pub mod connection;
pub mod errors;
pub mod fallback_decoder;
pub mod hex;
pub mod icebreakers_api;
pub mod json;
pub mod middlewares;
pub mod node_pool;
pub mod reject;
pub mod reject_codec;
pub mod reject_decoder;
pub mod reject_encoder;
pub mod reject_render;
pub mod reject_roundtrip;
pub mod reject_wf;
pub mod render;
pub mod submit_api;
pub mod sync_progress;
pub mod transactions;

pub use errors::AppError;
pub use errors::BlockfrostError;
