//! The messages of the WebSocket service.

pub mod message_handler;
