//! A node of a message-passing test harness: it takes one JSON request at a
//! time, builds the correlated reply and writes it as one line of JSON.
//!
//! - [`message`]: the envelope and the payloads of requests and replies.
//! - [`json`]: JSON documents, as the decoder takes them.
//! - [`decode`]: from a document to a request.
//! - [`encode`]: from a reply to its JSON text.
//! - [`node`]: the counter of message ids and the rule of reply.
//! - [`session`]: the loop around a node, as a state machine.

pub mod decode;
pub mod encode;
pub mod json;
pub mod message;
pub mod node;
pub mod session;
