//! The envelopes around the engine: continuation and classification events,
//! entry-point responses, and the corrective messages sent when a message is
//! refused.

use vstd::prelude::*;
use crate::orchestrator::SYSTEM_ID;
use crate::structs::{MessageContent, MessageLog, MessageRequest, ModifiedReference, StandardResponse};
use crate::validation::ValidationError;

verus! {

/// The corrective text sent to the user for each kind of refusal.
pub open spec fn hint_of(e: ValidationError) -> Seq<char> {
    match e {
        ValidationError::Unreadable => "No pudimos leer el mensaje, intenta nuevamente."@,
        ValidationError::KindMismatch => "El tipo de mensaje no corresponde a lo solicitado, responde segun las instrucciones."@,
        ValidationError::RuleMismatch => "El mensaje no es valido para este paso, verifica y reintenta."@,
        ValidationError::InvalidRule => "No es posible validar el mensaje en este momento."@,
        ValidationError::ChecksumMismatch => "VIN ingresado no es valido, verifique y reintente."@,
    }
}

/// The corrective text for a refusal.
pub fn validation_hint(e: ValidationError) -> (r: String)
    ensures
        r@ == hint_of(e),
{
    match e {
        ValidationError::Unreadable => String::from_str("No pudimos leer el mensaje, intenta nuevamente."),
        ValidationError::KindMismatch => String::from_str(
            "El tipo de mensaje no corresponde a lo solicitado, responde segun las instrucciones.",
        ),
        ValidationError::RuleMismatch => String::from_str("El mensaje no es valido para este paso, verifica y reintenta."),
        ValidationError::InvalidRule => String::from_str("No es posible validar el mensaje en este momento."),
        ValidationError::ChecksumMismatch => String::from_str("VIN ingresado no es valido, verifique y reintente."),
    }
}

/// The text message that tells `recipient` why their message was refused.
pub fn send_error_message(recipient: &String, e: ValidationError) -> (r: MessageRequest)
    ensures
        r.system_id == SYSTEM_ID,
        r.to@.len() == 1,
        r.to@[0]@ == recipient@,
        r.message_type@ == "text"@,
        r.content.body matches Some(b) && b@ == hint_of(e),
        r.content.list is None,
        r.content.buttons is None,
{
    let mut to: Vec<String> = Vec::new();
    to.push(recipient.clone());
    MessageRequest {
        system_id: SYSTEM_ID,
        to,
        message_type: String::from_str("text"),
        content: MessageContent { body: Some(validation_hint(e)), list: None, buttons: None },
    }
}

/// The event that asks the engine to continue a conversation after a reply
/// went out under `reference`.
pub fn continuation_log(log: &MessageLog, reference: &String, timestamp: &String) -> (r: MessageLog)
    ensures
        r.timestamp == *timestamp,
        r.destination_systems@.len() == 1,
        r.destination_systems@[0]@ == "3"@,
        r.origin_system@ == "3"@,
        r.phone_number == log.phone_number,
        r.origin@ == "OUTGOING"@,
        r.register_id == *reference,
{
    let mut destinations: Vec<String> = Vec::new();
    destinations.push(String::from_str("3"));
    MessageLog {
        timestamp: timestamp.clone(),
        destination_systems: destinations,
        origin_system: String::from_str("3"),
        phone_number: log.phone_number.clone(),
        origin: String::from_str("OUTGOING"),
        register_id: reference.clone(),
    }
}

/// The event that hands a completed request to the classification system.
pub fn classification_log(log: &MessageLog, timestamp: &String) -> (r: MessageLog)
    ensures
        r.timestamp == *timestamp,
        r.destination_systems@.len() == 1,
        r.destination_systems@[0]@ == "5"@,
        r.origin_system@ == "3"@,
        r.phone_number == log.phone_number,
        r.origin@ == "OUTGOING"@,
        r.register_id == log.register_id,
{
    let mut destinations: Vec<String> = Vec::new();
    destinations.push(String::from_str("5"));
    MessageLog {
        timestamp: timestamp.clone(),
        destination_systems: destinations,
        origin_system: String::from_str("3"),
        phone_number: log.phone_number.clone(),
        origin: String::from_str("OUTGOING"),
        register_id: log.register_id.clone(),
    }
}

/// A record written to the durable store.
pub fn store_reference(key: String) -> (r: ModifiedReference)
    ensures
        r.system@ == "REDIS"@,
        r.reference == key,
{
    ModifiedReference { system: String::from_str("REDIS"), reference: key }
}

/// A successful answer listing what was written.
pub fn success_response(references: Vec<ModifiedReference>) -> (r: StandardResponse)
    ensures
        r.references == references,
        r.errors is None,
{
    StandardResponse { references, errors: None }
}

/// A failed answer: the errors, and what was written before the failure.
pub fn failure_response(references: Vec<ModifiedReference>, errors: Vec<String>) -> (r: StandardResponse)
    ensures
        r.references == references,
        r.errors == Some(errors),
{
    StandardResponse { references, errors: Some(errors) }
}

} // verus!
