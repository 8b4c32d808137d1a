//! The envelope that every message travels in, and the two payload
//! vocabularies: what a client may ask, and what the node answers.

use vstd::prelude::*;

verus! {

/// One wire message: who sent it, whom it is for, and what it says.
///
/// `src` and `dest` are opaque identifiers; nothing here looks inside them.
#[derive(Debug, Clone, PartialEq, Eq)]
pub struct Message<Payload> {
    pub src: String,
    pub dest: String,
    pub body: Body<Payload>,
}

/// The correlation ids of a message and its payload.
///
/// On the wire the payload's fields are siblings of `msg_id` and
/// `in_reply_to`, not a nested object.
#[derive(Debug, Clone, PartialEq, Eq)]
pub struct Body<Payload> {
    /// Unique per sending node; absent on fire-and-forget messages.
    pub msg_id: Option<u64>,
    /// The `msg_id` of the message that this one answers.
    pub in_reply_to: Option<u64>,
    pub payload: Payload,
}

/// What a client may ask of the node.
#[derive(Debug, Clone, PartialEq, Eq)]
pub enum RequestPayload {
    Echo { echo: String },
    Init { node_id: String, node_ids: Vec<String> },
}

/// What the node answers.
#[derive(Debug, Clone, PartialEq, Eq)]
pub enum ResponsePayload {
    EchoOk { echo: String },
    InitOk,
}

/// The mathematical content of a [`Message`]: strings as sequences of
/// characters, the payload by its own view.
pub struct MessageView<P> {
    pub src: Seq<char>,
    pub dest: Seq<char>,
    pub msg_id: Option<u64>,
    pub in_reply_to: Option<u64>,
    pub payload: P,
}

/// The mathematical content of a [`RequestPayload`].
pub enum RequestView {
    Echo { echo: Seq<char> },
    Init { node_id: Seq<char>, node_ids: Seq<Seq<char>> },
}

/// The mathematical content of a [`ResponsePayload`].
pub enum ResponseView {
    EchoOk { echo: Seq<char> },
    InitOk,
}

/// The contents of a list of strings, each as a sequence of characters.
pub open spec fn texts(list: Seq<String>) -> Seq<Seq<char>> {
    Seq::new(list.len(), |i: int| list[i]@)
}

impl View for RequestPayload {
    type V = RequestView;

    open spec fn view(&self) -> RequestView {
        match *self {
            RequestPayload::Echo { echo } => RequestView::Echo { echo: echo@ },
            RequestPayload::Init { node_id, node_ids } => RequestView::Init {
                node_id: node_id@,
                node_ids: texts(node_ids@),
            },
        }
    }
}

impl View for ResponsePayload {
    type V = ResponseView;

    open spec fn view(&self) -> ResponseView {
        match *self {
            ResponsePayload::EchoOk { echo } => ResponseView::EchoOk { echo: echo@ },
            ResponsePayload::InitOk => ResponseView::InitOk,
        }
    }
}

impl<Payload: View> View for Message<Payload> {
    type V = MessageView<Payload::V>;

    open spec fn view(&self) -> MessageView<Payload::V> {
        MessageView {
            src: self.src@,
            dest: self.dest@,
            msg_id: self.body.msg_id,
            in_reply_to: self.body.in_reply_to,
            payload: self.body.payload@,
        }
    }
}

} // verus!
