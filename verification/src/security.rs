//! The parts of authenticated protocol actions that do not need a key: the stream an
//! action belongs to, its nonce, and the action that is then signed.
use vstd::prelude::*;
use crate::api::{SignedAction, SignedActionPayload, SsRecoveryCompletion};
use crate::db::events::{GenericKvLogEvent, ObjIdExtractor};
use crate::ids::{Base64Text, IdString};
use crate::model::device::DeviceId;
use crate::json::{canonical_bytes, canonical_text, JsonValue};

verus! {

/// The canonical stream name of an event: the name of the object it belongs to.
pub fn event_stream(event: &GenericKvLogEvent) -> (r: String)
    ensures
        r@ == event.key_of().obj_id.fqdn.id_view(),
{
    event.obj_id().fqdn.id_str()
}

/// The action that carries an event, before its signature is added: the stream is the
/// event's object and the nonce its sequence number.
pub fn unsigned_event_action(event: GenericKvLogEvent, signer: DeviceId) -> (r: SignedAction)
    ensures
        r.signer == signer,
        r.stream@ == event.key_of().obj_id.fqdn.id_view(),
        r.nonce == event.key_of().obj_id.id.curr,
        r.signature@.len() == 0,
        r.payload == SignedActionPayload::Event(event),
{
    let object_id = event.obj_id();
    let nonce = object_id.id.curr as u64;
    let stream = object_id.fqdn.id_str();
    SignedAction {
        signer,
        nonce,
        stream,
        signature: Base64Text(String::new()),
        payload: SignedActionPayload::Event(event),
    }
}

/// The action that carries a recovery completion, before its signature is added: one
/// stream per recovery, and the first (and only) nonce.
pub fn unsigned_recovery_completion(completion: SsRecoveryCompletion, signer: DeviceId) -> (r: SignedAction)
    ensures
        r.signer == signer,
        r.stream@ == completion.recovery_id.id_view(),
        r.nonce == 1,
        r.signature@.len() == 0,
        r.payload == SignedActionPayload::RecoveryCompletion(completion),
{
    let stream = completion.recovery_id.clone().id_str();
    SignedAction {
        signer,
        nonce: 1,
        stream,
        signature: Base64Text(String::new()),
        payload: SignedActionPayload::RecoveryCompletion(completion),
    }
}

/// The canonical JSON of a value, the bytes a signature is made over: object keys in
/// order at every level, array items in their order, no white space.
pub fn canonical_json(value: &JsonValue) -> (r: Vec<u8>)
    ensures
        r@ == canonical_bytes(*value),
{
    let text = canonical_text(value);
    vstd::slice::slice_to_vec(text.as_str().as_bytes())
}

} // verus!

