//! The message-post endpoint: what it hands to the chat service for a decoded
//! request, and which HTTP response it gives back for the service's outcome.

pub mod discord;
pub mod foreign;
pub mod laws;
