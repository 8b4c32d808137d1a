//! The node: a counter of message ids, and the rule by which a request is
//! answered.
//!
//! A reply goes back to where the request came from, carries the node's next
//! message id and names the request's id in `in_reply_to`. Each reply takes
//! one id, so the ids of a node's replies count up from zero without gaps.

use vstd::prelude::*;
use vstd::string::StringExecFns;
use crate::encode::{encode, encoded, on_one_line};
use crate::message::{
    Body,
    Message,
    MessageView,
    RequestPayload,
    RequestView,
    ResponsePayload,
    ResponseView,
};

verus! {

/// The state of a node: the message id that its next reply will carry.
#[derive(Debug, PartialEq, Eq)]
pub struct EchoNode {
    pub id: u64,
}

/// The payload that answers a request payload.
pub open spec fn answer(request: RequestView) -> ResponseView {
    match request {
        RequestView::Echo { echo } => ResponseView::EchoOk { echo },
        RequestView::Init { .. } => ResponseView::InitOk,
    }
}

/// The reply of a node whose counter stands at `id` to a request.
pub open spec fn reply_to(id: u64, request: MessageView<RequestView>) -> MessageView<
    ResponseView,
> {
    MessageView {
        src: request.dest,
        dest: request.src,
        msg_id: Some(id),
        in_reply_to: request.msg_id,
        payload: answer(request.payload),
    }
}

/// The line that a node whose counter stands at `id` writes for a request:
/// the JSON text of its reply and a line feed.
pub open spec fn reply_line(id: u64, request: MessageView<RequestView>) -> Seq<char> {
    encoded(reply_to(id, request)) + "\n"@
}

/// Whether a text is one line: it ends in a line feed and holds no other.
pub open spec fn is_line(text: Seq<char>) -> bool {
    text.len() > 0 && text.last() == '\n' && on_one_line(text.drop_last())
}

/// The replies of a node whose counter stands at `id` to a list of requests
/// that it handles one after the other.
pub open spec fn replies(id: u64, requests: Seq<MessageView<RequestView>>) -> Seq<
    MessageView<ResponseView>,
>
    decreases requests.len(),
{
    if requests.len() == 0 {
        Seq::empty()
    } else {
        seq![reply_to(id, requests.first())] + replies((id + 1) as u64, requests.drop_first())
    }
}

/// Every reply in a run answers the request at its own place with the id
/// that the counter has reached by then: it names that request's id, goes
/// back to where the request came from, and hands an echo back unchanged.
pub proof fn replies_answer_in_order(id: u64, requests: Seq<MessageView<RequestView>>)
    requires
        id + requests.len() <= u64::MAX,
    ensures
        replies(id, requests).len() == requests.len(),
        forall|i: int|
            0 <= i < requests.len() ==> {
                let reply = #[trigger] replies(id, requests)[i];
                &&& reply == reply_to((id + i) as u64, requests[i])
                &&& reply.in_reply_to == requests[i].msg_id
                &&& reply.src == requests[i].dest
                &&& reply.dest == requests[i].src
                &&& requests[i].payload matches RequestView::Echo { echo } ==> reply.payload
                    == (ResponseView::EchoOk { echo })
            },
    decreases requests.len(),
{
    if requests.len() > 0 {
        let rest = requests.drop_first();
        replies_answer_in_order((id + 1) as u64, rest);
        assert forall|i: int| 0 <= i < requests.len() implies #[trigger] replies(id, requests)[i]
            == reply_to((id + i) as u64, requests[i]) by {
            if i > 0 {
                assert(replies(id, requests)[i] == replies((id + 1) as u64, rest)[i - 1]);
                assert(requests[i] == rest[i - 1]);
            }
        }
    }
}

/// The replies to a list of requests carry consecutive message ids, starting
/// at the node's counter, in the order of the requests: none is left out and
/// none is given twice.
pub proof fn ids_are_consecutive(id: u64, requests: Seq<MessageView<RequestView>>)
    requires
        id + requests.len() <= u64::MAX,
    ensures
        replies(id, requests).len() == requests.len(),
        forall|i: int|
            0 <= i < requests.len() ==> (#[trigger] replies(id, requests)[i]).msg_id == Some(
                (id + i) as u64,
            ),
        forall|i: int, j: int|
            0 <= i < j < requests.len() ==> (#[trigger] replies(id, requests)[i]).msg_id != (
            #[trigger] replies(id, requests)[j]).msg_id,
{
    replies_answer_in_order(id, requests);
}

/// The replies of a new node to `n` requests carry the message ids
/// `0, 1, .., n - 1`, in this order.
pub proof fn ids_count_from_zero(requests: Seq<MessageView<RequestView>>)
    requires
        requests.len() <= u64::MAX,
    ensures
        replies(0, requests).len() == requests.len(),
        forall|i: int|
            0 <= i < requests.len() ==> (#[trigger] replies(0, requests)[i]).msg_id == Some(
                i as u64,
            ),
{
    ids_are_consecutive(0, requests);
}

impl EchoNode {
    /// A node that has not replied yet: its counter stands at zero.
    pub fn new() -> (node: EchoNode)
        ensures
            node.id == 0,
    {
        EchoNode { id: 0 }
    }

    /// Builds the reply to a request. The counter stays as it is.
    pub fn reply(&self, input: Message<RequestPayload>) -> (reply: Message<ResponsePayload>)
        ensures
            reply@ == reply_to(self.id, input@),
            reply.body.msg_id == Some(self.id),
            reply.body.in_reply_to == input.body.msg_id,
            reply.src@ == input.dest@,
            reply.dest@ == input.src@,
            input.body.payload matches RequestPayload::Echo { echo } ==> reply.body.payload
                == (ResponsePayload::EchoOk { echo }),
            input.body.payload is Init ==> reply.body.payload is InitOk,
    {
        let Message { src, dest, body } = input;
        let Body { msg_id, in_reply_to: _, payload } = body;
        let payload = match payload {
            RequestPayload::Echo { echo } => ResponsePayload::EchoOk { echo },
            RequestPayload::Init { node_id: _, node_ids: _ } => ResponsePayload::InitOk,
        };
        Message {
            src: dest,
            dest: src,
            body: Body { msg_id: Some(self.id), in_reply_to: msg_id, payload },
        }
    }

    /// The line that answers a request: the JSON text of the reply and a
    /// line feed. The counter stays as it is.
    pub fn respond(&self, input: Message<RequestPayload>) -> (line: String)
        ensures
            line@ == reply_line(self.id, input@),
            is_line(line@),
    {
        let reply = self.reply(input);
        let mut line = encode(&reply);
        line.append("\n");
        proof {
            reveal_strlit("\n");
            assert(line@.drop_last() =~= encoded(reply@));
        }
        line
    }

    /// Moves the counter on by one, once a reply has been handed over.
    ///
    /// The counter must not stand at its last value: a node never gives an
    /// id out twice.
    pub fn commit(&mut self)
        requires
            old(self).id < u64::MAX,
        ensures
            final(self).id == old(self).id + 1,
    {
        self.id = self.id + 1;
    }

    /// Answers one request: appends the line of the reply to `output`, then
    /// moves the counter on by one.
    ///
    /// The counter must not stand at its last value.
    pub fn handle(&mut self, input: Message<RequestPayload>, output: &mut String)
        requires
            old(self).id < u64::MAX,
        ensures
            final(output)@ == old(output)@ + reply_line(old(self).id, input@),
            is_line(reply_line(old(self).id, input@)),
            final(self).id == old(self).id + 1,
    {
        let line = self.respond(input);
        output.append(line.as_str());
        self.commit();
    }
}

} // verus!
