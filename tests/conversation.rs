use parts_flow::flow::FlowStatus;
use parts_flow::orchestrator::{
    continue_flow, execute_function, incoming_message, outgoing_message, plan_incoming, plan_outgoing, FlowError,
    Plan, Reply, STALE_AFTER_MS,
};
use parts_flow::store::{RequestTracker, TrackerStore};
use parts_flow::structs::{
    Change, ChangeMetadata, ChangeValue, Entry, Event, Image, Interactive, ListReply, Message, MessageLog, Text,
};
use parts_flow::validation::ValidationError;

const PHONE: &str = "5491100000000";
const T0: u64 = 1_700_000_000_000;

fn log(origin: &str, register: &str) -> MessageLog {
    MessageLog {
        timestamp: "0".to_string(),
        destination_systems: vec!["3".to_string()],
        origin_system: origin.to_string(),
        phone_number: PHONE.to_string(),
        origin: "INCOMING".to_string(),
        register_id: register.to_string(),
    }
}

fn message(kind: &str) -> Message {
    Message {
        context: None,
        from: PHONE.to_string(),
        id: "wamid.1".to_string(),
        timestamp: "1700000000".to_string(),
        message_type: kind.to_string(),
        image: None,
        text: None,
        button: None,
        interactive: None,
    }
}

fn event_of(m: Message) -> Event {
    Event {
        object: "whatsapp_business_account".to_string(),
        entry: vec![Entry {
            id: "1".to_string(),
            changes: vec![Change {
                field: "messages".to_string(),
                value: ChangeValue {
                    messaging_product: "whatsapp".to_string(),
                    metadata: ChangeMetadata {
                        display_phone_number: "1".to_string(),
                        phone_number_id: "2".to_string(),
                    },
                    contacts: None,
                    messages: Some(vec![m]),
                    statuses: None,
                },
            }],
        }],
    }
}

fn text_event(body: &str) -> Event {
    let mut m = message("text");
    m.text = Some(Text { body: body.to_string() });
    event_of(m)
}

fn list_event(id: &str) -> Event {
    let mut m = message("interactive");
    m.interactive = Some(Interactive {
        interactive_type: "list_reply".to_string(),
        list_reply: Some(ListReply { id: id.to_string(), title: "x".to_string() }),
        button_reply: None,
    });
    event_of(m)
}

fn image_event(caption: &str) -> Event {
    let mut m = message("image");
    m.image = Some(Image {
        caption: caption.to_string(),
        mime_type: "image/jpeg".to_string(),
        sha256: "x".to_string(),
        id: "media-7".to_string(),
    });
    event_of(m)
}

fn reply_of(plan: Result<Plan, FlowError>) -> Reply {
    match plan {
        Ok(Plan::Reply(r)) => r,
        _ => panic!("expected a reply"),
    }
}

fn makes() -> Vec<String> {
    ["toyota", "ford", "fiat"].iter().map(|s| s.to_string()).collect()
}

fn toyota_models() -> Vec<String> {
    ["corolla", "hilux", "yaris"].iter().map(|s| s.to_string()).collect()
}

/// Delivers a planned reply: its step is appended.
fn deliver(store: &mut TrackerStore, reply: &Reply) {
    if let Some(step) = &reply.step {
        assert!(store.create_new_step(step.duplicate()).is_ok());
    }
}

fn started_store() -> TrackerStore {
    let mut store = TrackerStore::new();
    let reply = reply_of(plan_outgoing(&mut store, &log("1", "r0"), T0, &"t1".to_string(), &"s0".to_string()));
    assert_eq!(reply.state, FlowStatus::FlowStarted);
    store
}

#[test]
fn conversation_from_greeting_to_model_list() {
    let mut store = TrackerStore::new();
    let start = reply_of(plan_outgoing(&mut store, &log("1", "r0"), T0, &"t1".to_string(), &"s0".to_string()));
    let tracker = store.get_last_tracker(&PHONE.to_string()).unwrap();
    assert_eq!(tracker.id, "t1");
    let first = store.get_last_tracker_step(&"t1".to_string()).unwrap();
    assert_eq!(first.status, FlowStatus::FlowStarted);
    let prompt = execute_function(&start, &vec![]);
    assert_eq!(prompt.content.body.as_deref(), Some("Escribe 'hola' para iniciar la solicitud."));
    assert_eq!(prompt.to, vec![PHONE.to_string()]);

    let hola = reply_of(plan_incoming(&store, &log("2", "r1"), &text_event("hola"), T0 + 1, &"s1".to_string()));
    assert_eq!(hola.state, FlowStatus::BrandModalSent);
    assert_eq!(hola.catalog_key.as_deref(), Some("makes"));
    let brands = execute_function(&hola, &makes());
    assert_eq!(brands.message_type, "list");
    assert_eq!(brands.content.list.as_ref().unwrap().choices[0].id, "toyota-id");
    deliver(&mut store, &hola);

    let pick = reply_of(plan_incoming(&store, &log("2", "r2"), &list_event("toyota-id"), T0 + 2, &"s2".to_string()));
    assert_eq!(pick.state, FlowStatus::BrandSelected);
    let step = pick.step.as_ref().unwrap();
    assert_eq!(step.status, FlowStatus::BrandSelected);
    assert_eq!(step.value, "toyota-id");
    assert!(pick.continues);
    let echo = execute_function(&pick, &vec![]);
    assert_eq!(echo.content.body.as_deref(), Some("Has seleccionado toyota-id."));
    deliver(&mut store, &pick);

    let models = reply_of(continue_flow(&store, &log("3", "r3"), T0 + 3, &"s3".to_string()));
    assert_eq!(models.state, FlowStatus::ModelModalSent);
    assert_eq!(models.page, 1);
    assert_eq!(models.catalog_key.as_deref(), Some("models:toyota"));
    let list = execute_function(&models, &toyota_models());
    let choices = &list.content.list.as_ref().unwrap().choices;
    assert_eq!(choices.len(), 3);
    assert_eq!(choices[0].id, "corolla-id");
    assert_eq!(list.content.list.as_ref().unwrap().title, "Modelos");
}

#[test]
fn replayed_event_makes_no_second_transition() {
    let mut store = started_store();
    let hola = reply_of(plan_incoming(&store, &log("2", "r1"), &text_event("hola"), T0 + 1, &"s1".to_string()));
    deliver(&mut store, &hola);
    let again = plan_incoming(&store, &log("2", "r1"), &text_event("hola"), T0 + 2, &"s9".to_string());
    assert!(matches!(again, Ok(Plan::Duplicate)));
    let step = hola.step.as_ref().unwrap().duplicate();
    assert!(store.create_new_step(step).is_err());
    assert_eq!(store.get_last_tracker_step(&"t1".to_string()).unwrap().id, "s1");
}

#[test]
fn stale_conversation_is_cancelled_whatever_the_message() {
    let mut store = started_store();
    let hola = reply_of(plan_incoming(&store, &log("2", "r1"), &text_event("hola"), T0 + 1, &"s1".to_string()));
    deliver(&mut store, &hola);
    let late = T0 + 1 + STALE_AFTER_MS + 1;
    for event in [list_event("toyota-id"), text_event("anything"), image_event("door")] {
        let r = reply_of(plan_incoming(&store, &log("2", "r5"), &event, late, &"s5".to_string()));
        assert_eq!(r.state, FlowStatus::Cancelled);
        assert_eq!(r.step.as_ref().unwrap().status, FlowStatus::Cancelled);
        assert!(!r.continues);
    }
    let r = reply_of(plan_incoming(&store, &log("2", "r5"), &list_event("toyota-id"), late, &"s5".to_string()));
    let notice = execute_function(&r, &vec![]);
    assert!(notice.content.body.unwrap().contains("expiro"));
    deliver(&mut store, &r);
    let after = plan_incoming(&store, &log("2", "r6"), &text_event("hola"), late + 1, &"s6".to_string());
    assert!(matches!(after, Ok(Plan::Finished)));
}

#[test]
fn exactly_threshold_old_is_not_stale() {
    let mut store = started_store();
    let hola = reply_of(plan_incoming(&store, &log("2", "r1"), &text_event("hola"), T0 + 1, &"s1".to_string()));
    deliver(&mut store, &hola);
    let r = reply_of(plan_incoming(&store, &log("2", "r2"), &list_event("toyota-id"), T0 + 1 + STALE_AFTER_MS, &"s2".to_string()));
    assert_eq!(r.state, FlowStatus::BrandSelected);
}

#[test]
fn navigation_choice_rerenders_without_a_step() {
    let mut store = started_store();
    let hola = reply_of(plan_incoming(&store, &log("2", "r1"), &text_event("hola"), T0 + 1, &"s1".to_string()));
    deliver(&mut store, &hola);
    let nav = reply_of(plan_incoming(&store, &log("2", "r2"), &list_event("page-2"), T0 + 2, &"s2".to_string()));
    assert_eq!(nav.state, FlowStatus::BrandModalSent);
    assert_eq!(nav.page, 2);
    assert!(nav.step.is_none());
    let catalog: Vec<String> = (0..12).map(|i| format!("make{}", i)).collect();
    let page = execute_function(&nav, &catalog);
    let ids: Vec<String> = page.content.list.unwrap().choices.iter().map(|c| c.id.clone()).collect();
    assert_eq!(ids, vec!["page-1", "make9-id", "make10-id", "make11-id"]);
}

#[test]
fn refusals_are_reported_by_kind() {
    let mut store = started_store();
    let wrong = plan_incoming(&store, &log("2", "r1"), &text_event("buenas"), T0 + 1, &"s1".to_string());
    assert!(matches!(wrong, Err(FlowError::Validation(ValidationError::RuleMismatch))));
    let hola = reply_of(plan_incoming(&store, &log("2", "r1"), &text_event("hola"), T0 + 1, &"s1".to_string()));
    deliver(&mut store, &hola);
    let typed = plan_incoming(&store, &log("2", "r2"), &text_event("toyota"), T0 + 2, &"s2".to_string());
    assert!(matches!(typed, Err(FlowError::Validation(ValidationError::KindMismatch))));
}

#[test]
fn unknown_phone_has_no_conversation() {
    let store = TrackerStore::new();
    let r = plan_incoming(&store, &log("2", "r1"), &text_event("hola"), T0, &"s1".to_string());
    assert!(matches!(r, Err(FlowError::NoActiveConversation)));
}

#[test]
fn model_list_without_brand_answer_fails() {
    let mut store = started_store();
    let hola = reply_of(plan_incoming(&store, &log("2", "r1"), &text_event("hola"), T0 + 1, &"s1".to_string()));
    deliver(&mut store, &hola);
    let mut fake = hola.step.as_ref().unwrap().duplicate();
    fake.status = FlowStatus::ModelModalSent;
    fake.id = "s2".to_string();
    fake.message_reference = "r2".to_string();
    fake.timestamp = T0 + 2;
    store.create_new_step(fake).unwrap();
    let r = plan_incoming(&store, &log("2", "r3"), &list_event("corolla-id"), T0 + 3, &"s3".to_string());
    let r = reply_of(r);
    assert_eq!(r.state, FlowStatus::ModelSelected);
    let nav = plan_incoming(&store, &log("2", "r4"), &list_event("page-2-toyota"), T0 + 3, &"s4".to_string());
    assert!(matches!(nav, Err(FlowError::MissingPriorAnswer)));
}

#[test]
fn continuation_walks_system_states_and_stops() {
    let mut store = started_store();
    let r = continue_flow(&store, &log("3", "c1"), T0 + 1, &"s1".to_string());
    assert!(matches!(r, Ok(Plan::Wait)));
    let hola = reply_of(plan_incoming(&store, &log("2", "r1"), &text_event("hola"), T0 + 1, &"s1".to_string()));
    deliver(&mut store, &hola);
    let user = plan_incoming(&store, &log("2", "r2"), &list_event("toyota-id"), T0 + 2, &"s2".to_string());
    deliver(&mut store, &reply_of(user));
    let models = reply_of(continue_flow(&store, &log("3", "c2"), T0 + 3, &"s3".to_string()));
    deliver(&mut store, &models);
    assert!(matches!(continue_flow(&store, &log("3", "c3"), T0 + 4, &"s4".to_string()), Ok(Plan::Wait)));
    let not_now = plan_incoming(&store, &log("2", "c2"), &list_event("corolla-id"), T0 + 5, &"s5".to_string());
    assert!(matches!(not_now, Ok(Plan::Duplicate)));
}

fn user(store: &mut TrackerStore, e: Event, t: u64, n: u32) -> Reply {
    let r = reply_of(plan_incoming(store, &log("2", &format!("u{}", n)), &e, t, &format!("su{}", n)));
    deliver(store, &r);
    r
}

#[test]
fn full_request_reaches_classification() {
    let mut store = started_store();
    user(&mut store, text_event("hola"), T0 + 1, 1);
    user(&mut store, list_event("toyota-id"), T0 + 2, 2);
    let models = reply_of(continue_flow(&store, &log("3", "c1"), T0 + 10, &"c1".to_string()));
    deliver(&mut store, &models);
    user(&mut store, list_event("corolla-id"), T0 + 11, 3);
    let ask = reply_of(continue_flow(&store, &log("3", "c2"), T0 + 20, &"c2".to_string()));
    assert_eq!(ask.state, FlowStatus::IdentificationRequestSent);
    deliver(&mut store, &ask);
    let ident = user(&mut store, text_event("1M8GDM9AXKP042788"), T0 + 21, 4);
    assert_eq!(ident.state, FlowStatus::IdentificationProvided);
    let describe = reply_of(continue_flow(&store, &log("3", "c3"), T0 + 30, &"c3".to_string()));
    deliver(&mut store, &describe);
    let mut desc = reply_of(plan_incoming(&store, &log("2", "img"), &image_event("left door"), T0 + 31, &"simg".to_string()));
    assert_eq!(desc.state, FlowStatus::PartDescriptionProvided);
    assert_eq!(desc.image_id.as_deref(), Some("media-7"));
    desc.attach_file("abc.jpeg".to_string());
    assert_eq!(desc.step.as_ref().unwrap().attached_files, "abc.jpeg");
    deliver(&mut store, &desc);
    let accepted = reply_of(continue_flow(&store, &log("3", "c4"), T0 + 40, &"c4".to_string()));
    assert_eq!(accepted.state, FlowStatus::RequestAccepted);
    assert!(accepted.reset_mode);
    deliver(&mut store, &accepted);
    assert!(matches!(continue_flow(&store, &log("3", "c5"), T0 + 50, &"c5".to_string()), Ok(Plan::Classify)));
    assert!(matches!(
        plan_incoming(&store, &log("2", "late"), &text_event("hola"), T0 + 51, &"s".to_string()),
        Ok(Plan::Finished)
    ));
}

#[test]
fn entry_points_generate_record_ids() {
    let mut store = TrackerStore::new();
    let start = outgoing_message(&mut store, &log("1", "r0"), T0);
    assert!(matches!(start, Ok(Plan::Reply(_))));
    let tracker_id = store.get_last_tracker(&PHONE.to_string()).unwrap().id.clone();
    assert_eq!(tracker_id.len(), 32);
    let step = store.get_last_tracker_step(&tracker_id).unwrap();
    assert_eq!(step.id.len(), 32);
    let hola = reply_of(incoming_message(&store, &log("2", "r1"), &text_event("hola"), T0 + 1));
    assert_eq!(hola.step.as_ref().unwrap().id.len(), 32);
    assert!(matches!(outgoing_message(&mut store, &log("9", "r2"), T0), Err(FlowError::UnsupportedOrigin)));
}

#[test]
fn tracker_without_steps_has_no_history() {
    let mut store = TrackerStore::new();
    store.create_new_tracker(RequestTracker { phone_number: PHONE.to_string(), timestamp: T0, id: "t1".to_string() });
    let r = plan_incoming(&store, &log("2", "r1"), &text_event("hola"), T0, &"s1".to_string());
    assert!(matches!(r, Err(FlowError::NoStepHistory)));
    let c = continue_flow(&store, &log("3", "c1"), T0, &"s1".to_string());
    assert!(matches!(c, Err(FlowError::NoStepHistory)));
}

#[test]
fn out_of_range_page_is_refused() {
    let mut store = started_store();
    let hola = reply_of(plan_incoming(&store, &log("2", "r1"), &text_event("hola"), T0 + 1, &"s1".to_string()));
    deliver(&mut store, &hola);
    for bad in ["page-0", "page-1000000", "page-123456789012"] {
        let r = plan_incoming(&store, &log("2", "r2"), &list_event(bad), T0 + 2, &"s2".to_string());
        assert!(matches!(r, Err(FlowError::InvalidPage)), "{}", bad);
    }
    assert_eq!(store.get_last_tracker_step(&"t1".to_string()).unwrap().status, FlowStatus::BrandModalSent);
}

#[test]
fn repeated_start_stores_nothing_more() {
    let mut store = TrackerStore::new();
    let first = plan_outgoing(&mut store, &log("1", "r0"), T0, &"t1".to_string(), &"s0".to_string());
    assert!(matches!(first, Ok(Plan::Reply(_))));
    let again = plan_outgoing(&mut store, &log("1", "r0"), T0 + 1, &"t1".to_string(), &"s9".to_string());
    assert!(matches!(again, Ok(Plan::Duplicate)));
    assert_eq!(store.get_last_tracker_step(&"t1".to_string()).unwrap().id, "s0");
}
