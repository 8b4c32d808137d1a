//! Writing a reply as JSON text.
//!
//! The members of a reply have a fixed order: `src`, `dest`, `body`, and inside
//! the body `msg_id`, `in_reply_to`, `type` and then the payload's own fields.
//! An id that is absent is left out; it is never written as `null`.

use vstd::prelude::*;
use vstd::string::StringExecFns;
use crate::message::{Message, MessageView, ResponsePayload, ResponseView, Body};

verus! {

/// The JSON string literal that `serde_json` writes for a string: the text
/// between two double quotes, with the escapes that `serde_json` chooses.
pub uninterp spec fn quoted(s: Seq<char>) -> Seq<char>;

/// Whether a text holds no line feed.
pub open spec fn on_one_line(text: Seq<char>) -> bool {
    forall|i: int| 0 <= i < text.len() ==> text[i] != '\n'
}

/// Calls `serde_json::to_string` on a string slice.
///
/// Trusted: the result is the literal named [`quoted`], a function of the
/// characters alone, and it holds no line feed, because `serde_json` escapes
/// every control character. The call cannot fail for a string: the
/// serializer writes into a byte vector, and a string needs no key or number
/// conversion.
#[verifier::external_body]
fn quote(s: &str) -> (literal: String)
    ensures
        literal@ == quoted(s@),
        on_one_line(literal@),
{
    serde_json::to_string(s).expect("a string has a JSON literal")
}

/// The character that stands for a decimal digit.
pub open spec fn digit(d: int) -> char {
    if d == 0 {
        '0'
    } else if d == 1 {
        '1'
    } else if d == 2 {
        '2'
    } else if d == 3 {
        '3'
    } else if d == 4 {
        '4'
    } else if d == 5 {
        '5'
    } else if d == 6 {
        '6'
    } else if d == 7 {
        '7'
    } else if d == 8 {
        '8'
    } else {
        '9'
    }
}

/// A natural number in decimal, without leading zeros.
pub open spec fn decimal(n: nat) -> Seq<char>
    decreases n,
{
    if n < 10 {
        seq![digit(n as int)]
    } else {
        decimal(n / 10).push(digit((n % 10) as int))
    }
}

/// One id of the body with the comma that follows it, or nothing where the id
/// is absent. `key` is the member's name, quotes and colon included.
pub open spec fn id_member(key: Seq<char>, id: Option<u64>) -> Seq<char> {
    match id {
        Some(n) => key + decimal(n as nat) + ","@,
        None => Seq::empty(),
    }
}

/// The discriminant of a payload followed by the payload's own fields, where
/// every string of `payload` is already a JSON string literal.
pub open spec fn payload_members(payload: ResponseView) -> Seq<char> {
    match payload {
        ResponseView::EchoOk { echo } => "\"type\":\"echo_ok\",\"echo\":"@ + echo,
        ResponseView::InitOk => "\"type\":\"init_ok\""@,
    }
}

/// The JSON object for a reply, where every string of `literals` is already a
/// JSON string literal.
pub open spec fn assembled(literals: MessageView<ResponseView>) -> Seq<char> {
    "{\"src\":"@ + literals.src + ",\"dest\":"@ + literals.dest + ",\"body\":{"@ + id_member(
        "\"msg_id\":"@,
        literals.msg_id,
    ) + id_member("\"in_reply_to\":"@, literals.in_reply_to) + payload_members(literals.payload)
        + "}}"@
}

/// A reply with each of its strings replaced by the JSON string literal for it.
pub open spec fn in_literals(reply: MessageView<ResponseView>) -> MessageView<ResponseView> {
    MessageView {
        src: quoted(reply.src),
        dest: quoted(reply.dest),
        msg_id: reply.msg_id,
        in_reply_to: reply.in_reply_to,
        payload: match reply.payload {
            ResponseView::EchoOk { echo } => ResponseView::EchoOk { echo: quoted(echo) },
            ResponseView::InitOk => ResponseView::InitOk,
        },
    }
}

/// The JSON text of a reply.
pub open spec fn encoded(reply: MessageView<ResponseView>) -> Seq<char> {
    assembled(in_literals(reply))
}

/// Whether none of the strings of a reply holds a line feed.
pub open spec fn strings_on_one_line(reply: MessageView<ResponseView>) -> bool {
    &&& on_one_line(reply.src)
    &&& on_one_line(reply.dest)
    &&& reply.payload matches ResponseView::EchoOk { echo } ==> on_one_line(echo)
}

/// A number in decimal holds no line feed.
pub proof fn decimal_is_on_one_line(n: nat)
    ensures
        on_one_line(decimal(n)),
    decreases n,
{
    if n >= 10 {
        decimal_is_on_one_line(n / 10);
    }
}

fn digit_text(d: u64) -> (text: &'static str)
    requires
        d < 10,
    ensures
        text@ == seq![digit(d as int)],
{
    proof {
        reveal_strlit("0");
        reveal_strlit("1");
        reveal_strlit("2");
        reveal_strlit("3");
        reveal_strlit("4");
        reveal_strlit("5");
        reveal_strlit("6");
        reveal_strlit("7");
        reveal_strlit("8");
        reveal_strlit("9");
    }
    let text = if d == 0 {
        "0"
    } else if d == 1 {
        "1"
    } else if d == 2 {
        "2"
    } else if d == 3 {
        "3"
    } else if d == 4 {
        "4"
    } else if d == 5 {
        "5"
    } else if d == 6 {
        "6"
    } else if d == 7 {
        "7"
    } else if d == 8 {
        "8"
    } else {
        "9"
    };
    assert(text@ =~= seq![digit(d as int)]);
    text
}

fn append_decimal(out: &mut String, n: u64)
    ensures
        final(out)@ == old(out)@ + decimal(n as nat),
    decreases n,
{
    if n >= 10 {
        append_decimal(out, n / 10);
    }
    out.append(digit_text(n % 10));
    assert(out@ =~= old(out)@ + decimal(n as nat));
}

fn append_id(out: &mut String, key: &str, id: Option<u64>)
    ensures
        final(out)@ == old(out)@ + id_member(key@, id),
        on_one_line(old(out)@) && on_one_line(key@) ==> on_one_line(final(out)@),
{
    match id {
        Some(n) => {
            out.append(key);
            append_decimal(out, n);
            out.append(",");
            proof {
                reveal_strlit(",");
                decimal_is_on_one_line(n as nat);
            }
            assert(out@ =~= old(out)@ + id_member(key@, id));
        },
        None => {
            assert(out@ =~= old(out)@ + id_member(key@, id));
        },
    }
}

/// Writes the JSON object for a reply whose strings are JSON string literals
/// already: they are copied into the text as they stand. Where none of them
/// holds a line feed, the text holds none.
pub fn assemble(literals: &Message<ResponsePayload>) -> (text: String)
    ensures
        text@ == assembled(literals@),
        strings_on_one_line(literals@) ==> on_one_line(text@),
{
    proof {
        reveal_strlit("{\"src\":");
        reveal_strlit(",\"dest\":");
        reveal_strlit(",\"body\":{");
        reveal_strlit("\"msg_id\":");
        reveal_strlit("\"in_reply_to\":");
        reveal_strlit("\"type\":\"echo_ok\",\"echo\":");
        reveal_strlit("\"type\":\"init_ok\"");
        reveal_strlit("}}");
    }
    let mut out = String::new();
    out.append("{\"src\":");
    out.append(literals.src.as_str());
    out.append(",\"dest\":");
    out.append(literals.dest.as_str());
    out.append(",\"body\":{");
    append_id(&mut out, "\"msg_id\":", literals.body.msg_id);
    append_id(&mut out, "\"in_reply_to\":", literals.body.in_reply_to);
    match &literals.body.payload {
        ResponsePayload::EchoOk { echo } => {
            out.append("\"type\":\"echo_ok\",\"echo\":");
            out.append(echo.as_str());
        },
        ResponsePayload::InitOk => {
            out.append("\"type\":\"init_ok\"");
        },
    }
    out.append("}}");
    assert(out@ =~= assembled(literals@));
    out
}

/// The JSON text of a reply: one object on one line, without a line end.
///
/// Every string passes through `serde_json`, so the text holds the escapes
/// that `serde_json` writes.
pub fn encode(reply: &Message<ResponsePayload>) -> (text: String)
    ensures
        text@ == encoded(reply@),
        on_one_line(text@),
{
    let payload = match &reply.body.payload {
        ResponsePayload::EchoOk { echo } => ResponsePayload::EchoOk { echo: quote(echo.as_str()) },
        ResponsePayload::InitOk => ResponsePayload::InitOk,
    };
    let literals = Message {
        src: quote(reply.src.as_str()),
        dest: quote(reply.dest.as_str()),
        body: Body { msg_id: reply.body.msg_id, in_reply_to: reply.body.in_reply_to, payload },
    };
    assemble(&literals)
}

} // verus!
