//! Client-side core of the NLUI HTTP/SSE protocol.
//!
//! The crate verifies the logic of an SSE-consuming chat client: framing a
//! byte stream into lines, decoding `data: `-prefixed lines into events,
//! dispatching events to an observer in arrival order while extracting the
//! completion and error control signals, planning every HTTP request the
//! client issues, and the wire shapes of the records it sends.

pub mod event;
pub mod frame;
pub mod plan;
pub mod response;
pub mod stream;
pub mod types;
pub mod wire;

pub use event::Delivery;
pub use frame::LineFramer;
pub use plan::HttpMethod;
pub use plan::RequestPlan;
pub use stream::ChatStream;
pub use types::ChatEvent;
pub use types::Conversation;
pub use types::LLMConfig;
pub use types::LLMProvider;
pub use types::Message;
pub use types::ModelsResponse;
pub use types::NLUIError;
pub use types::ProbeResult;
pub use types::ProxyConfig;
pub use types::ProxyTestResult;
pub use types::Target;
pub use types::Tool;
pub use types::ToolConfig;
pub use types::ToolInfo;
pub use types::ToolSource;
