//! Verified core of the proxy-rotation client: the node pool with quarantine,
//! the rotation state machine, subscription parsing, the core configuration
//! document and the request/response logic of the core's REST API.

pub mod app;
pub mod clock;
pub mod codec;
pub mod domain;
pub mod infra;
pub mod text;
