//! Reading a request from a JSON document.
//!
//! A request is a JSON object with the members `src`, `dest` and `body`. The
//! body is an object that holds `msg_id` and `in_reply_to`, each optional,
//! the discriminant `type`, and beside them the fields of the payload that
//! `type` names. Members with other keys are passed over. A member that the
//! decoder reads may occur only once. Decoding is all or nothing.

use vstd::prelude::*;
use vstd::string::StringExecFns;
use crate::json::{entry, lookup, Json, Lookup, Member};
use crate::message::{texts, Body, Message, MessageView, RequestPayload, RequestView};

verus! {

/// The members that the decoder reads.
#[derive(Debug, Clone, Copy, PartialEq, Eq)]
pub enum Field {
    Src,
    Dest,
    Body,
    MsgId,
    InReplyTo,
    Type,
    Echo,
    NodeId,
    NodeIds,
}

/// Why an input is no request.
#[derive(Debug, Clone, Copy, PartialEq, Eq)]
pub enum DecodeError {
    /// The input is not JSON, so that there is no document to decode.
    Syntax,
    /// The document is not a JSON object.
    NotAnObject,
    /// A member that must be there is not.
    Missing(Field),
    /// A member occurs more than once.
    Repeated(Field),
    /// A member holds a value of the wrong kind: no string, no object, no
    /// natural number below 2^64, or no list of strings, where one is needed.
    Invalid(Field),
    /// The discriminant is a string that names no request.
    UnknownType,
}

/// The string under `key`, which must be there.
pub open spec fn required_text(members: Seq<Member>, key: Seq<char>, field: Field) -> Result<
    Seq<char>,
    DecodeError,
> {
    match entry(members, key) {
        Lookup::Absent => Err(DecodeError::Missing(field)),
        Lookup::Repeated => Err(DecodeError::Repeated(field)),
        Lookup::Found(Json::Text(text)) => Ok(text@),
        Lookup::Found(_) => Err(DecodeError::Invalid(field)),
    }
}

/// The members of the object under `key`, which must be there.
pub open spec fn required_object(members: Seq<Member>, key: Seq<char>, field: Field) -> Result<
    Seq<Member>,
    DecodeError,
> {
    match entry(members, key) {
        Lookup::Absent => Err(DecodeError::Missing(field)),
        Lookup::Repeated => Err(DecodeError::Repeated(field)),
        Lookup::Found(Json::Object(inner)) => Ok(inner@),
        Lookup::Found(_) => Err(DecodeError::Invalid(field)),
    }
}

/// The id under `key`: absent where there is no such member or it is `null`.
pub open spec fn optional_id(members: Seq<Member>, key: Seq<char>, field: Field) -> Result<
    Option<u64>,
    DecodeError,
> {
    match entry(members, key) {
        Lookup::Absent => Ok(None),
        Lookup::Repeated => Err(DecodeError::Repeated(field)),
        Lookup::Found(Json::Null) => Ok(None),
        Lookup::Found(Json::Number(Some(id))) => Ok(Some(id)),
        Lookup::Found(_) => Err(DecodeError::Invalid(field)),
    }
}

/// Whether every item is a string.
pub open spec fn all_text(items: Seq<Json>) -> bool {
    forall|i: int| 0 <= i < items.len() ==> items[i] is Text
}

/// The strings of a list whose items are all strings.
pub open spec fn text_items(items: Seq<Json>) -> Seq<Seq<char>> {
    Seq::new(items.len(), |i: int| items[i]->Text_0@)
}

/// The list of strings under `key`, which must be there.
pub open spec fn required_texts(members: Seq<Member>, key: Seq<char>, field: Field) -> Result<
    Seq<Seq<char>>,
    DecodeError,
> {
    match entry(members, key) {
        Lookup::Absent => Err(DecodeError::Missing(field)),
        Lookup::Repeated => Err(DecodeError::Repeated(field)),
        Lookup::Found(Json::Array(items)) => if all_text(items@) {
            Ok(text_items(items@))
        } else {
            Err(DecodeError::Invalid(field))
        },
        Lookup::Found(_) => Err(DecodeError::Invalid(field)),
    }
}

/// The payload that the members of a body hold: `type` selects the request,
/// and the request's own fields are read after it, in the order of their
/// declaration.
pub open spec fn decoded_payload(body: Seq<Member>) -> Result<RequestView, DecodeError> {
    match required_text(body, "type"@, Field::Type) {
        Err(e) => Err(e),
        Ok(kind) => if kind == "echo"@ {
            match required_text(body, "echo"@, Field::Echo) {
                Err(e) => Err(e),
                Ok(echo) => Ok(RequestView::Echo { echo }),
            }
        } else if kind == "init"@ {
            match required_text(body, "node_id"@, Field::NodeId) {
                Err(e) => Err(e),
                Ok(node_id) => match required_texts(body, "node_ids"@, Field::NodeIds) {
                    Err(e) => Err(e),
                    Ok(node_ids) => Ok(RequestView::Init { node_id, node_ids }),
                },
            }
        } else {
            Err(DecodeError::UnknownType)
        },
    }
}

/// The request that the members of a message hold. They are read in the
/// order `src`, `dest`, `body`, `msg_id`, `in_reply_to`, then the payload; the
/// first that fails gives the error.
pub open spec fn decoded_message(members: Seq<Member>) -> Result<
    MessageView<RequestView>,
    DecodeError,
> {
    match required_text(members, "src"@, Field::Src) {
        Err(e) => Err(e),
        Ok(src) => match required_text(members, "dest"@, Field::Dest) {
            Err(e) => Err(e),
            Ok(dest) => match required_object(members, "body"@, Field::Body) {
                Err(e) => Err(e),
                Ok(body) => match optional_id(body, "msg_id"@, Field::MsgId) {
                    Err(e) => Err(e),
                    Ok(msg_id) => match optional_id(body, "in_reply_to"@, Field::InReplyTo) {
                        Err(e) => Err(e),
                        Ok(in_reply_to) => match decoded_payload(body) {
                            Err(e) => Err(e),
                            Ok(payload) => Ok(
                                MessageView { src, dest, msg_id, in_reply_to, payload },
                            ),
                        },
                    },
                },
            },
        },
    }
}

/// The request that a document holds.
pub open spec fn decoded(document: Json) -> Result<MessageView<RequestView>, DecodeError> {
    match document {
        Json::Object(members) => decoded_message(members@),
        _ => Err(DecodeError::NotAnObject),
    }
}

/// The discriminant that a document carries: the string under `type` in the
/// object under `body`, where the document has both exactly once.
pub open spec fn discriminant(document: Json) -> Option<Seq<char>> {
    match document {
        Json::Object(members) => match entry(members@, "body"@) {
            Lookup::Found(Json::Object(body)) => match entry(body@, "type"@) {
                Lookup::Found(Json::Text(kind)) => Some(kind@),
                _ => None,
            },
            _ => None,
        },
        _ => None,
    }
}

/// A document whose discriminant is none of the known request names is
/// rejected, whatever else it holds.
pub proof fn unknown_discriminant_is_rejected(document: Json)
    requires
        discriminant(document) != Some("echo"@),
        discriminant(document) != Some("init"@),
    ensures
        decoded(document) is Err,
{
}

fn same(text: &String, name: &str) -> (equal: bool)
    ensures
        equal == (text@ == name@),
{
    let wanted = String::from_str(name);
    *text == wanted
}

fn text_under(members: &Vec<Member>, key: &str, field: Field) -> (got: Result<String, DecodeError>)
    ensures
        match required_text(members@, key@, field) {
            Ok(text) => got is Ok && got->Ok_0@ == text,
            Err(e) => got is Err && got->Err_0 == e,
        },
{
    match lookup(members, key) {
        Lookup::Absent => Err(DecodeError::Missing(field)),
        Lookup::Repeated => Err(DecodeError::Repeated(field)),
        Lookup::Found(Json::Text(text)) => Ok(text.clone()),
        Lookup::Found(_) => Err(DecodeError::Invalid(field)),
    }
}

fn object_under<'a>(members: &'a Vec<Member>, key: &str, field: Field) -> (got: Result<
    &'a Vec<Member>,
    DecodeError,
>)
    ensures
        match required_object(members@, key@, field) {
            Ok(inner) => got is Ok && got->Ok_0@ == inner,
            Err(e) => got is Err && got->Err_0 == e,
        },
{
    match lookup(members, key) {
        Lookup::Absent => Err(DecodeError::Missing(field)),
        Lookup::Repeated => Err(DecodeError::Repeated(field)),
        Lookup::Found(Json::Object(inner)) => Ok(inner),
        Lookup::Found(_) => Err(DecodeError::Invalid(field)),
    }
}

fn id_under(members: &Vec<Member>, key: &str, field: Field) -> (got: Result<
    Option<u64>,
    DecodeError,
>)
    ensures
        got == optional_id(members@, key@, field),
{
    match lookup(members, key) {
        Lookup::Absent => Ok(None),
        Lookup::Repeated => Err(DecodeError::Repeated(field)),
        Lookup::Found(Json::Null) => Ok(None),
        Lookup::Found(Json::Number(Some(id))) => Ok(Some(*id)),
        Lookup::Found(_) => Err(DecodeError::Invalid(field)),
    }
}

fn texts_under(members: &Vec<Member>, key: &str, field: Field) -> (got: Result<
    Vec<String>,
    DecodeError,
>)
    ensures
        match required_texts(members@, key@, field) {
            Ok(list) => got is Ok && texts(got->Ok_0@) == list,
            Err(e) => got is Err && got->Err_0 == e,
        },
{
    match lookup(members, key) {
        Lookup::Absent => Err(DecodeError::Missing(field)),
        Lookup::Repeated => Err(DecodeError::Repeated(field)),
        Lookup::Found(Json::Array(items)) => {
            let mut list: Vec<String> = Vec::new();
            let mut i: usize = 0;
            while i < items.len()
                invariant
                    entry(members@, key@) == Lookup::Found(Json::Array(*items)),
                    i <= items.len(),
                    list@.len() == i,
                    forall|k: int| 0 <= k < i ==> items@[k] is Text,
                    forall|k: int| 0 <= k < i ==> list@[k]@ == (#[trigger] items@[k])->Text_0@,
                decreases items.len() - i,
            {
                match &items[i] {
                    Json::Text(text) => {
                        list.push(text.clone());
                    },
                    _ => {
                        assert(!(items@[i as int] is Text));
                        return Err(DecodeError::Invalid(field));
                    },
                }
                i += 1;
            }
            assert(texts(list@) =~= text_items(items@));
            Ok(list)
        },
        Lookup::Found(_) => Err(DecodeError::Invalid(field)),
    }
}

fn payload_of(body: &Vec<Member>) -> (got: Result<RequestPayload, DecodeError>)
    ensures
        match decoded_payload(body@) {
            Ok(payload) => got is Ok && got->Ok_0@ == payload,
            Err(e) => got is Err && got->Err_0 == e,
        },
{
    let kind = match text_under(body, "type", Field::Type) {
        Ok(kind) => kind,
        Err(e) => {
            return Err(e);
        },
    };
    if same(&kind, "echo") {
        match text_under(body, "echo", Field::Echo) {
            Ok(echo) => Ok(RequestPayload::Echo { echo }),
            Err(e) => Err(e),
        }
    } else if same(&kind, "init") {
        let node_id = match text_under(body, "node_id", Field::NodeId) {
            Ok(node_id) => node_id,
            Err(e) => {
                return Err(e);
            },
        };
        match texts_under(body, "node_ids", Field::NodeIds) {
            Ok(node_ids) => Ok(RequestPayload::Init { node_id, node_ids }),
            Err(e) => Err(e),
        }
    } else {
        Err(DecodeError::UnknownType)
    }
}

/// Reads a request from a JSON document.
///
/// Returns the request that the document holds, or the reason why it holds
/// none; which of the two, and which reason, is fixed by [`decoded`]. Only a
/// document whose discriminant is `echo` or `init` gives a request, and the
/// reason is never [`DecodeError::Syntax`]: a document is JSON.
pub fn decode(document: &Json) -> (got: Result<Message<RequestPayload>, DecodeError>)
    ensures
        match decoded(*document) {
            Ok(request) => got is Ok && got->Ok_0@ == request,
            Err(e) => got is Err && got->Err_0 == e,
        },
        got is Ok ==> discriminant(*document) == Some("echo"@) || discriminant(*document) == Some(
            "init"@,
        ),
        got != Err::<Message<RequestPayload>, DecodeError>(DecodeError::Syntax),
{
    let members = match document {
        Json::Object(members) => members,
        _ => {
            return Err(DecodeError::NotAnObject);
        },
    };
    let src = match text_under(members, "src", Field::Src) {
        Ok(src) => src,
        Err(e) => {
            return Err(e);
        },
    };
    let dest = match text_under(members, "dest", Field::Dest) {
        Ok(dest) => dest,
        Err(e) => {
            return Err(e);
        },
    };
    let body = match object_under(members, "body", Field::Body) {
        Ok(body) => body,
        Err(e) => {
            return Err(e);
        },
    };
    let msg_id = match id_under(body, "msg_id", Field::MsgId) {
        Ok(msg_id) => msg_id,
        Err(e) => {
            return Err(e);
        },
    };
    let in_reply_to = match id_under(body, "in_reply_to", Field::InReplyTo) {
        Ok(in_reply_to) => in_reply_to,
        Err(e) => {
            return Err(e);
        },
    };
    match payload_of(body) {
        Ok(payload) => Ok(Message { src, dest, body: Body { msg_id, in_reply_to, payload } }),
        Err(e) => Err(e),
    }
}

} // verus!
