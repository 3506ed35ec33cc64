//! Verified normalization pipeline for messages of a single chat.
//!
//! Raw messages, as a chat client delivers them, are classified by their
//! attachment, their formatting spans are mapped to typed text spans, and the
//! result is assembled into a self-contained [`message::ChatMessage`] record.
//! A bounded [`history::ChatHistory`] buffer retains the most recent records
//! in insertion order.

pub mod message;

pub mod raw;

pub mod classify;

pub mod extract;

pub mod normalize;

pub mod history;

pub mod state;

