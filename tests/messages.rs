use parts_flow::flow::{FlowStatus, MessageType, ValidationRule};
use parts_flow::structs::{
    Change, ChangeMetadata, ChangeValue, Entry, Event, Image, Interactive, ListChoice, ListReply, Message,
    StandardResponse, Text,
};
use parts_flow::validation::{apply_rule, find_message_type, get_image_id, get_message_content, validate, ValidationError};

fn message(kind: &str) -> Message {
    Message {
        context: None,
        from: "5491100000000".to_string(),
        id: "wamid.1".to_string(),
        timestamp: "1700000000".to_string(),
        message_type: kind.to_string(),
        image: None,
        text: None,
        button: None,
        interactive: None,
    }
}

fn event_of(m: Message) -> Event {
    Event {
        object: "whatsapp_business_account".to_string(),
        entry: vec![Entry {
            id: "1".to_string(),
            changes: vec![Change {
                field: "messages".to_string(),
                value: ChangeValue {
                    messaging_product: "whatsapp".to_string(),
                    metadata: ChangeMetadata {
                        display_phone_number: "1".to_string(),
                        phone_number_id: "2".to_string(),
                    },
                    contacts: None,
                    messages: Some(vec![m]),
                    statuses: None,
                },
            }],
        }],
    }
}

fn text_event(body: &str) -> Event {
    let mut m = message("text");
    m.text = Some(Text { body: body.to_string() });
    event_of(m)
}

fn list_event(id: &str) -> Event {
    let mut m = message("interactive");
    m.interactive = Some(Interactive {
        interactive_type: "list_reply".to_string(),
        list_reply: Some(ListReply { id: id.to_string(), title: "Toyota".to_string() }),
        button_reply: None,
    });
    event_of(m)
}

fn button_event(id: &str) -> Event {
    let mut m = message("interactive");
    m.interactive = Some(Interactive {
        interactive_type: "button_reply".to_string(),
        list_reply: None,
        button_reply: Some(ListReply { id: id.to_string(), title: "Si".to_string() }),
    });
    event_of(m)
}

fn image_event(caption: &str) -> Event {
    let mut m = message("image");
    m.image = Some(Image {
        caption: caption.to_string(),
        mime_type: "image/jpeg".to_string(),
        sha256: "x".to_string(),
        id: "media-7".to_string(),
    });
    event_of(m)
}

#[test]
fn message_kinds_are_read_from_their_shape() {
    assert_eq!(find_message_type(&text_event("hola")), Some(MessageType::PlainText));
    assert_eq!(find_message_type(&list_event("toyota-id")), Some(MessageType::ListSelection));
    assert_eq!(find_message_type(&button_event("yes")), Some(MessageType::ButtonSelection));
    assert_eq!(find_message_type(&image_event("a door")), Some(MessageType::PlainTextAndImage));
    assert_eq!(find_message_type(&event_of(message("sticker"))), None);
    let empty = Event { object: "x".to_string(), entry: vec![] };
    assert_eq!(find_message_type(&empty), None);
}

#[test]
fn message_content_is_body_selection_or_caption() {
    assert_eq!(get_message_content(&text_event("hola")), Some("hola".to_string()));
    assert_eq!(get_message_content(&list_event("toyota-id")), Some("toyota-id".to_string()));
    assert_eq!(get_message_content(&button_event("yes")), Some("yes".to_string()));
    assert_eq!(get_message_content(&image_event("a door")), Some("a door".to_string()));
    assert_eq!(get_image_id(&image_event("a door")), Some("media-7".to_string()));
    assert_eq!(get_image_id(&text_event("hola")), None);
}

#[test]
fn start_keyword_passes_the_pattern() {
    let def = FlowStatus::BrandModalSent.value();
    assert_eq!(validate(&def, &text_event("hola")), Ok("hola".to_string()));
    assert_eq!(validate(&def, &text_event("dije hola!")), Ok("dije hola!".to_string()));
}

#[test]
fn other_text_fails_the_pattern() {
    let def = FlowStatus::BrandModalSent.value();
    assert_eq!(validate(&def, &text_event("adios")), Err(ValidationError::RuleMismatch));
}

#[test]
fn wrong_shape_is_a_kind_mismatch() {
    let def = FlowStatus::BrandSelected.value();
    assert_eq!(validate(&def, &text_event("toyota")), Err(ValidationError::KindMismatch));
    assert_eq!(validate(&def, &list_event("toyota-id")), Ok("toyota-id".to_string()));
}

#[test]
fn identification_is_checked() {
    let def = FlowStatus::IdentificationProvided.value();
    assert_eq!(validate(&def, &text_event("1M8GDM9AXKP042788")), Ok("1M8GDM9AXKP042788".to_string()));
    assert_eq!(validate(&def, &text_event("AB1234")), Ok("AB1234".to_string()));
    assert_eq!(validate(&def, &text_event("1M8GDM9AXKP042789")), Err(ValidationError::ChecksumMismatch));
}

#[test]
fn unreadable_message_is_refused() {
    let def = FlowStatus::BrandModalSent.value();
    assert_eq!(validate(&def, &event_of(message("text"))), Err(ValidationError::Unreadable));
    assert_eq!(validate(&def, &event_of(message("audio"))), Err(ValidationError::Unreadable));
}

#[test]
fn choice_builders_set_fields() {
    let mut c = ListChoice::new();
    assert_eq!(c.id, "");
    c.title("Toyota").id("toyota-id");
    assert_eq!(c.title, "Toyota");
    assert_eq!(c.id, "toyota-id");
    let r = StandardResponse::new();
    assert!(r.references.is_empty());
    assert!(r.errors.is_none());
}

#[test]
fn rules_apply_the_pattern_verdict() {
    let p = ValidationRule::Pattern("x".to_string());
    assert_eq!(apply_rule(&p, "y", None), Err(ValidationError::InvalidRule));
    assert_eq!(apply_rule(&p, "y", Some(false)), Err(ValidationError::RuleMismatch));
    assert_eq!(apply_rule(&p, "x", Some(true)), Ok(()));
    assert_eq!(apply_rule(&ValidationRule::Pattern(String::new()), "y", None), Ok(()));
    assert_eq!(apply_rule(&ValidationRule::Any, "y", None), Ok(()));
    assert_eq!(apply_rule(&ValidationRule::VehicleId, "AB1234", None), Ok(()));
    assert_eq!(apply_rule(&ValidationRule::VehicleId, "AB123", None), Err(ValidationError::ChecksumMismatch));
}

#[test]
fn invalid_pattern_is_reported() {
    let mut def = FlowStatus::BrandModalSent.value();
    def.validation_rule = ValidationRule::Pattern("(".to_string());
    assert_eq!(validate(&def, &text_event("hola")), Err(ValidationError::InvalidRule));
    def.validation_rule = ValidationRule::Pattern("^[0-9]+$".to_string());
    assert_eq!(validate(&def, &text_event("123")), Ok("123".to_string()));
    assert_eq!(validate(&def, &text_event("12a")), Err(ValidationError::RuleMismatch));
}
