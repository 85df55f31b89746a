//! A bridge between a host shell's inter-process command layer and a GraphQL
//! execution engine. The crate owns the bridging protocol itself: routing an
//! invocation by its command name, validating and extracting the request
//! payloads, naming the per-subscription event channels, and tracking the
//! lifecycle of a subscription's event stream. The GraphQL engine and the
//! host transport are opaque collaborators behind this layer.

pub mod batch;
pub mod channel;
pub mod dispatch;
pub mod engine;
pub mod errors;
pub mod json;
pub mod request;
pub mod session;
pub mod text;
