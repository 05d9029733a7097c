//! Message layer of a JSON-RPC based tool-serving protocol: request
//! normalization, batch handling, and response/error shaping.

pub mod decode;
pub mod initialize;
pub mod json;
pub mod laws;
pub mod normalize;
pub mod prompts;
pub mod resources;
pub mod rpc;
pub mod tool;

pub use json::JsonValue;
