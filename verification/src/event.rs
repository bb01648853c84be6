//! Decoding one stream line's payload into an event, and dispatching events.
//!
//! A `data: ` line's payload is JSON text of the form
//! `{"type": <string>, "data": <any JSON>}`. Decoding it is delegated to
//! serde_json behind a trusted wrapper whose result is named by
//! `decoded_event`; everything done with a decoded event is verified here.
//!
//! Dispatch order for one event, as the protocol demands: the specialized
//! control signal first (completion with the payload's `conversation_id`, or
//! the advisory error with the payload's `message`), then the event itself
//! for the generic observer.

use vstd::prelude::*;

verus! {

use vstd::string::StringExecFns;
use vstd::utf8::valid_utf8;
use crate::types::ChatEvent;
use crate::types::EventModel;

/// What serde_json decodes from the JSON text of one event: `None` when the
/// text is not a JSON object with a string `type` field and a `data` field;
/// otherwise the kind tag, the `data` value re-serialized as JSON text, and
/// the payload's `conversation_id` and `message` fields where they are
/// present as strings. A pure function of the bytes alone.
pub uninterp spec fn decoded_event(payload: Seq<u8>) -> Option<EventModel>;

/// Relies on serde_json::from_slice for parsing the event's JSON text, and on
/// serde_json::Value's get/as_str/to_string for reading it back out: the
/// result is a pure function of the payload bytes, named `decoded_event`.
#[verifier::external_body]
pub(crate) fn decode_event(payload: &[u8]) -> (r: Option<ChatEvent>)
    ensures
        r matches Some(e) ==> decoded_event(payload@) == Some(e@),
        r is None ==> decoded_event(payload@) is None,
{
    let v: serde_json::Value = serde_json::from_slice(payload).ok()?;
    let kind = v.get("type")?.as_str()?.to_string();
    let d = v.get("data")?;
    Some(ChatEvent {
        event_type: kind,
        data: d.to_string(),
        conversation_id: d.get("conversation_id").and_then(|c| c.as_str()).map(|c| c.to_string()),
        message: d.get("message").and_then(|m| m.as_str()).map(|m| m.to_string()),
    })
}

/// Relies on core's str::from_utf8, which accepts a byte slice exactly when
/// it is valid UTF-8.
#[verifier::external_body]
pub(crate) fn utf8_check(bytes: &[u8]) -> (ok: bool)
    ensures
        ok == valid_utf8(bytes@),
{
    core::str::from_utf8(bytes).is_ok()
}

/// One delivery to the caller's observer, in the order the deliveries of a
/// stream are handed out: the completion signal with the new conversation
/// identifier, the advisory error signal with its message, or an event for
/// the generic callback.
#[derive(Debug, PartialEq, Eq)]
pub enum Delivery {
    Done(String),
    Error(String),
    Event(ChatEvent),
}

/// Mathematical value of a `Delivery`.
pub enum DeliveryModel {
    Done(Seq<char>),
    Error(Seq<char>),
    Event(EventModel),
}

impl View for Delivery {
    type V = DeliveryModel;

    open spec fn view(&self) -> DeliveryModel {
        match self {
            Delivery::Done(c) => DeliveryModel::Done(c@),
            Delivery::Error(m) => DeliveryModel::Error(m@),
            Delivery::Event(e) => DeliveryModel::Event(e@),
        }
    }
}

/// The specialized control deliveries of one event: a completion signal for a
/// `done` event whose payload carries a conversation identifier, an advisory
/// error signal for an `error` event whose payload carries a message, nothing
/// for any other event.
pub open spec fn control_deliveries(e: EventModel) -> Seq<DeliveryModel> {
    if e.kind == "done"@ {
        match e.conversation_id {
            Some(c) => seq![DeliveryModel::Done(c)],
            None => seq![],
        }
    } else if e.kind == "error"@ {
        match e.message {
            Some(m) => seq![DeliveryModel::Error(m)],
            None => seq![],
        }
    } else {
        seq![]
    }
}

/// All deliveries of one event, specialized control signals first, the event
/// itself for the generic observer last.
pub open spec fn event_deliveries(e: EventModel) -> Seq<DeliveryModel> {
    control_deliveries(e).push(DeliveryModel::Event(e))
}

/// The conversation identifier after one event: a `done` event whose payload
/// carries one replaces it, every other event leaves it untouched.
pub open spec fn event_next_id(e: EventModel, id: Seq<char>) -> Seq<char> {
    if e.kind == "done"@ && e.conversation_id is Some {
        e.conversation_id.unwrap()
    } else {
        id
    }
}

/// Dispatches one decoded event: updates the recorded conversation identifier
/// and returns the deliveries the observer is owed, in order.
pub fn dispatch_event(event: ChatEvent, conversation_id: &mut String) -> (out: Vec<Delivery>)
    ensures
        out@.map_values(|d: Delivery| d@) == event_deliveries(event@),
        final(conversation_id)@ == event_next_id(event@, old(conversation_id)@),
{
    let mut out: Vec<Delivery> = Vec::new();
    let done_tag: String = String::from_str("done");
    let error_tag: String = String::from_str("error");
    if event.event_type == done_tag {
        match &event.conversation_id {
            Some(cid) => {
                *conversation_id = cid.clone();
                out.push(Delivery::Done(cid.clone()));
            },
            None => {},
        }
    } else if event.event_type == error_tag {
        match &event.message {
            Some(m) => {
                out.push(Delivery::Error(m.clone()));
            },
            None => {},
        }
    }
    out.push(Delivery::Event(event));
    proof {
        assert(out@.map_values(|d: Delivery| d@) =~= event_deliveries(event@));
    }
    out
}

/// For a `done` event whose payload carries a conversation identifier, the
/// completion signal is delivered exactly once, before the event itself
/// reaches the generic observer.
pub proof fn lemma_done_event_delivery_order(e: EventModel)
    requires
        e.kind == "done"@,
        e.conversation_id is Some,
    ensures
        event_deliveries(e) =~= seq![
            DeliveryModel::Done(e.conversation_id.unwrap()),
            DeliveryModel::Event(e),
        ],
{
}

} // verus!
