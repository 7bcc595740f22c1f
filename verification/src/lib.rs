//! Wire encodings for two request parameters of a model-serving HTTP API:
//! the response format and the keep-alive duration.

pub mod decimal;
pub mod format;
pub mod keep_alive;

pub use format::{
    FormatType, FormatView, FormatWire, FormatWireView, JsonStructure, SchemaParseError,
};
pub use keep_alive::{KeepAlive, KeepAliveWire, KeepAliveWireView, TimeUnit};
