//! Core of a conversational session between a user and a language-model
//! backend: a model descriptor, immutable message turns, and a chat that
//! admits messages against a token budget and manages its lifecycle.

pub mod chat;
pub mod errors;
pub mod ids;
pub mod laws;
pub mod message;
pub mod model;
pub mod time;

pub use chat::Chat;
pub use chat::ChatConfig;
pub use errors::ChatError;
pub use errors::MessageError;
pub use message::Message;
pub use model::Model;
pub use time::Timestamp;
