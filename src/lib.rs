//! A client library for a hosted generative-language service: a provider-agnostic
//! conversation model, a request builder, a compiler from generic requests to the
//! backend's wire request, and decoders for single-shot and server-sent-event
//! responses.

pub mod backend;
pub mod builder;
pub mod conversation;
mod codec;
pub mod response;
pub mod stream;
pub mod text;
pub mod wire;

pub use backend::{GeminiApiModel, GeminiClient, GeminiVertexModel};
pub use builder::{ModelRequest, ModelRequestBuilder};
pub use conversation::{Completion, FunctionCall, Message, Role, Settings, Tool, ToolParameters, ToolProperty};
pub use response::{decode_completion, DecodeError, GeminiResponse};
pub use stream::{StreamDecoder, StreamEvent};
pub use wire::{compile_request, GeminiModel, GeminiRequest};
