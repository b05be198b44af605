use parts_flow::envelope::{
    classification_log, continuation_log, failure_response, send_error_message, store_reference, success_response,
    validation_hint,
};
use parts_flow::flow::FlowStatus;
use parts_flow::store::{
    find_field, get_last_tracker, get_user_mode, is_nil, mode_key, message_key, notification_channel,
    reset_user_mode, step_key, tracker_key, RequestTracker, TrackerStep, TrackerStore,
};
use parts_flow::structs::MessageLog;
use parts_flow::validation::ValidationError;

fn tracker(phone: &str, ts: u64, id: &str) -> RequestTracker {
    RequestTracker { phone_number: phone.to_string(), timestamp: ts, id: id.to_string() }
}

fn step(tracker: &str, ts: u64, id: &str, status: FlowStatus, value: &str, reference: &str) -> TrackerStep {
    TrackerStep {
        tracker_id: tracker.to_string(),
        timestamp: ts,
        id: id.to_string(),
        status,
        value: value.to_string(),
        attached_files: String::new(),
        message_reference: reference.to_string(),
    }
}

fn strings(v: &[&str]) -> Vec<String> {
    v.iter().map(|s| s.to_string()).collect()
}

#[test]
fn latest_tracker_is_newest_of_the_phone() {
    let mut store = TrackerStore::new();
    store.create_new_tracker(tracker("111", 5, "a"));
    store.create_new_tracker(tracker("222", 9, "b"));
    store.create_new_tracker(tracker("111", 7, "c"));
    store.create_new_tracker(tracker("111", 6, "d"));
    assert_eq!(store.get_last_tracker(&"111".to_string()).unwrap().id, "c");
    assert_eq!(store.get_last_tracker(&"222".to_string()).unwrap().id, "b");
    assert!(store.get_last_tracker(&"333".to_string()).is_none());
}

#[test]
fn equal_timestamps_favour_the_later_record() {
    let mut store = TrackerStore::new();
    store.create_new_tracker(tracker("111", 5, "a"));
    store.create_new_tracker(tracker("111", 5, "b"));
    assert_eq!(store.get_last_tracker(&"111".to_string()).unwrap().id, "b");
}

#[test]
fn step_lookups_by_tracker_and_state() {
    let mut store = TrackerStore::new();
    store.create_new_step(step("t", 1, "s1", FlowStatus::FlowStarted, "", "r1")).unwrap();
    store.create_new_step(step("t", 3, "s3", FlowStatus::BrandSelected, "ford-id", "r3")).unwrap();
    store.create_new_step(step("u", 9, "x", FlowStatus::BrandSelected, "fiat-id", "r9")).unwrap();
    store.create_new_step(step("t", 2, "s2", FlowStatus::BrandModalSent, "hola", "r2")).unwrap();
    assert_eq!(store.get_last_tracker_step(&"t".to_string()).unwrap().id, "s3");
    assert_eq!(store.get_step_by_status(&"t".to_string(), FlowStatus::BrandModalSent).unwrap().id, "s2");
    assert_eq!(store.get_step_by_status(&"u".to_string(), FlowStatus::BrandSelected).unwrap().value, "fiat-id");
    assert!(store.get_step_by_status(&"t".to_string(), FlowStatus::ModelSelected).is_none());
    assert!(store.get_last_tracker_step(&"none".to_string()).is_none());
}

#[test]
fn same_event_is_appended_once_per_tracker() {
    let mut store = TrackerStore::new();
    assert!(store.create_new_step(step("t", 1, "s1", FlowStatus::FlowStarted, "", "r1")).is_ok());
    assert!(store.create_new_step(step("t", 2, "s2", FlowStatus::BrandModalSent, "", "r1")).is_err());
    assert!(store.create_new_step(step("u", 2, "s3", FlowStatus::BrandModalSent, "", "r1")).is_ok());
    assert!(store.records_event(&"t".to_string(), &"r1".to_string()));
    assert!(!store.records_event(&"t".to_string(), &"r2".to_string()));
    assert_eq!(store.get_last_tracker_step(&"t".to_string()).unwrap().id, "s1");
}

#[test]
fn record_keys() {
    assert_eq!(tracker_key(&"abc".to_string()), "whatsapp-request:abc");
    assert_eq!(step_key(&"abc".to_string()), "whatsapp-workflow:abc");
    assert_eq!(mode_key(&"111".to_string()), "selected-mode:111");
    assert_eq!(message_key(&"111".to_string(), &"m1".to_string()), "incoming-messages:111:m1");
    assert_eq!(notification_channel(&"111".to_string()), "whatsapp-notification:111");
    let (key, field, value) = reset_user_mode(&"111".to_string());
    assert_eq!((key.as_str(), field.as_str(), value.as_str()), ("selected-mode:111", "mode", "100"));
}

#[test]
fn mode_is_read_as_a_small_number() {
    assert_eq!(get_user_mode(&"100".to_string()), Some(100));
    assert_eq!(get_user_mode(&"65535".to_string()), Some(65535));
    assert_eq!(get_user_mode(&"65536".to_string()), None);
    assert_eq!(get_user_mode(&"x1".to_string()), None);
}

#[test]
fn nil_replies_are_recognised() {
    assert!(is_nil(&"An error was signalled by the server - response was nil".to_string()));
    assert!(!is_nil(&"connection refused".to_string()));
}

#[test]
fn fields_are_found_with_the_last_pair_winning() {
    let fields = strings(&["a", "1", "b", "2", "a", "3", "c"]);
    assert_eq!(find_field(&fields, "a").map(|s| s.as_str()), Some("3"));
    assert_eq!(find_field(&fields, "b").map(|s| s.as_str()), Some("2"));
    assert_eq!(find_field(&fields, "c"), None);
}

#[test]
fn tracker_reply_is_parsed() {
    let fields = strings(&["phone_number", "111", "timestamp", "1700000000000"]);
    let t = get_last_tracker(&"whatsapp-request:abc".to_string(), &fields).unwrap();
    assert_eq!(t.id, "abc");
    assert_eq!(t.phone_number, "111");
    assert_eq!(t.timestamp, 1_700_000_000_000);
    assert!(get_last_tracker(&"k".to_string(), &strings(&["phone_number", "111"])).is_none());
    assert!(get_last_tracker(&"k".to_string(), &strings(&["phone_number", "1", "timestamp", "x"])).is_none());
}

#[test]
fn step_reply_is_parsed() {
    let fields = strings(&[
        "tracker_id", "t1", "timestamp", "42", "status", "3", "value", "toyota-id", "attached_files", "",
        "message_reference", "r1",
    ]);
    let s = TrackerStep::parse_from_redis(&"whatsapp-workflow:s1".to_string(), &fields).unwrap();
    assert_eq!(s.id, "s1");
    assert_eq!(s.tracker_id, "t1");
    assert_eq!(s.timestamp, 42);
    assert_eq!(s.status, FlowStatus::BrandSelected);
    assert_eq!(s.value, "toyota-id");
    assert_eq!(s.message_reference, "r1");
    let mut bad = fields.clone();
    bad[5] = "99".to_string();
    assert!(TrackerStep::parse_from_redis(&"s".to_string(), &bad).is_none());
    assert!(TrackerStep::parse_from_redis(&"s".to_string(), &fields[..10].to_vec()).is_none());
}

#[test]
fn each_refusal_has_its_own_hint() {
    let kinds = [
        ValidationError::Unreadable,
        ValidationError::KindMismatch,
        ValidationError::RuleMismatch,
        ValidationError::InvalidRule,
        ValidationError::ChecksumMismatch,
    ];
    let hints: Vec<String> = kinds.iter().map(|k| validation_hint(*k)).collect();
    for i in 0..hints.len() {
        for j in 0..hints.len() {
            assert_eq!(i == j, hints[i] == hints[j]);
        }
    }
    let m = send_error_message(&"111".to_string(), ValidationError::ChecksumMismatch);
    assert_eq!(m.content.body.as_deref(), Some("VIN ingresado no es valido, verifique y reintente."));
    assert_eq!(m.to, vec!["111".to_string()]);
    assert_eq!(m.message_type, "text");
}

#[test]
fn continuation_and_classification_events() {
    let log = MessageLog {
        timestamp: "1".to_string(),
        destination_systems: vec![],
        origin_system: "1".to_string(),
        phone_number: "111".to_string(),
        origin: "INCOMING".to_string(),
        register_id: "r1".to_string(),
    };
    let c = continuation_log(&log, &"ref9".to_string(), &"77".to_string());
    assert_eq!(c.destination_systems, vec!["3".to_string()]);
    assert_eq!(c.origin_system, "3");
    assert_eq!(c.register_id, "ref9");
    assert_eq!(c.timestamp, "77");
    assert_eq!(c.origin, "OUTGOING");
    let k = classification_log(&log, &"78".to_string());
    assert_eq!(k.destination_systems, vec!["5".to_string()]);
    assert_eq!(k.register_id, "r1");
}

#[test]
fn responses_carry_references_and_errors() {
    let ok = success_response(vec![store_reference("whatsapp-workflow:s1".to_string())]);
    assert!(ok.errors.is_none());
    assert_eq!(ok.references[0].system, "REDIS");
    assert_eq!(ok.references[0].reference, "whatsapp-workflow:s1");
    let bad = failure_response(vec![], vec!["boom".to_string()]);
    assert_eq!(bad.errors, Some(vec!["boom".to_string()]));
}

#[test]
fn step_record_reads_back() {
    let s = step("t1", 1_700_000_000_123, "s9", FlowStatus::ModelSelected, "corolla-id", "r7");
    let fields = s.to_fields();
    assert_eq!(fields[0], "tracker_id");
    assert_eq!(fields[3], "1700000000123");
    assert_eq!(fields[5], "5");
    let back = TrackerStep::parse_from_redis(&step_key(&"s9".to_string()), &fields).unwrap();
    assert_eq!(back.id, "s9");
    assert_eq!(back.tracker_id, "t1");
    assert_eq!(back.timestamp, 1_700_000_000_123);
    assert_eq!(back.status, FlowStatus::ModelSelected);
    assert_eq!(back.value, "corolla-id");
    assert_eq!(back.attached_files, "");
    assert_eq!(back.message_reference, "r7");
}

#[test]
fn tracker_record_reads_back() {
    let t = tracker("111", 1_700_000_000_999, "abc");
    let fields = t.to_fields();
    assert_eq!(fields, strings(&["phone_number", "111", "timestamp", "1700000000999"]));
    let back = get_last_tracker(&tracker_key(&t.id), &fields).unwrap();
    assert_eq!(back.id, "abc");
    assert_eq!(back.phone_number, "111");
    assert_eq!(back.timestamp, 1_700_000_000_999);
}
