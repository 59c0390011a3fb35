//! Decision logic of a chat-platform agent: conversation history, context
//! packing for a language model, and the plugin chain that handles events.
pub mod config;
pub mod event;
pub mod helper;
pub mod llm;
pub mod logging;
pub mod persistent_state;
pub mod plugin;
pub mod text;
pub mod volatile_state;
