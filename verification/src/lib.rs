//! Core of a small chat client for a remote completion endpoint.
//!
//! The library holds the verified heart of the client: an append-only
//! conversation log with point-in-time snapshots, the encoder that turns a
//! snapshot plus request parameters into the provider's JSON request body,
//! the decoder that turns an HTTP status and response body into exactly one
//! worker outcome, and the coordinator that owns the transcript and applies
//! submissions and worker results to it.  Network and terminal I/O live in
//! the surrounding application, which only hands plain values across.

pub mod chat_log;
pub mod coordinator;
pub mod decode;
pub mod encode;
pub mod laws;
pub mod message;
pub mod params;

pub use chat_log::ConversationLog;
pub use coordinator::Coordinator;
pub use decode::ChatError;
pub use decode::Schema;
pub use decode::WorkerOutcome;
pub use encode::build_request_body;
pub use message::Message;
pub use message::MessageView;
pub use message::Role;
pub use params::RequestParams;
