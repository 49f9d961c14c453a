//! The client side of a streaming charting protocol, between the transport
//! and the application.
//!
//! The events of the stream arrive as a kind and a sequence of loosely typed
//! arguments. The [`handler`] module holds one handler for each kind and the
//! bridge that forwards every event, as the typed response that stands for it
//! ([`message`]), to one delivery channel. The [`pine_indicator`] module
//! compiles what the remote service tells about a custom script into the
//! parameters with which a study of the script is requested ([`study`]).

pub mod chart;
pub mod error;
pub mod handler;
pub mod message;
pub mod models;
pub mod pine_indicator;
pub mod quote;
pub mod study;
pub mod value;
