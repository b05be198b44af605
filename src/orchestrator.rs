//! The flow orchestrator: from the stored history and an inbound event to
//! the next transition. Planning reads the store only; the caller renders
//! the reply (with the catalog page it asks for), delivers it, and only then
//! appends the planned step, so that no transition is recorded whose
//! message never left.

use vstd::prelude::*;
use crate::flow::{
    FlowStatus, MessageType, TemplateKind, is_terminal, list_title_of, opt_view, required_kind_of,
    source_of, successor_of, table_rule, template_body_of, template_kind_of, echo_suffix_of,
};
use crate::pagination::{PAGE_LIMIT, catalog_page, choice_views, page_choice_number, page_choices, parse_page_choice, string_views};
use crate::store::{
    RequestTracker, TrackerStep, TrackerStore, appended, has_event, is_latest_step, latest_step, latest_tracker,
    lemma_latest_exists, step_selected,
};
use crate::structs::{Event, ListMessage, MessageContent, MessageLog, MessageRequest};
use crate::text::{before_char, text_before, text_is};
use crate::validation::{ValidationError, event_content, event_image, event_kind, get_image_id, validate, validation_outcome};

verus! {

/// A conversation whose latest step is older than this (in milliseconds)
/// expires on its next inbound event.
pub const STALE_AFTER_MS: u64 = 10_800_000;

/// The id of this system among the platform's systems.
pub const SYSTEM_ID: u8 = 3;

/// Why an event could not be handled.
#[derive(PartialEq, Eq, Structural, Clone, Copy, Debug)]
pub enum FlowError {
    /// The phone number has no conversation.
    NoActiveConversation,
    /// The conversation has no step.
    NoStepHistory,
    /// The message may not enter the next state.
    Validation(ValidationError),
    /// A list depends on an earlier answer that was never given.
    MissingPriorAnswer,
    /// The envelope names a caller this engine does not serve.
    UnsupportedOrigin,
    /// A navigation choice asks for a page that cannot be shown.
    InvalidPage,
}

/// A message to render and send, and the transition to record once it is
/// delivered.
pub struct Reply {
    /// The state whose definition is rendered.
    pub state: FlowStatus,
    /// The step to append after delivery; `None` where nothing advances (a
    /// page of a list shown again, or a step already stored).
    pub step: Option<TrackerStep>,
    /// The catalog page to list.
    pub page: u64,
    /// The catalog to read the list from.
    pub catalog_key: Option<String>,
    /// The earlier answer that parameterizes the catalog.
    pub nav_param: Option<String>,
    /// The content that triggered the reply.
    pub captured: String,
    pub recipient: String,
    /// An image to upload and attach to the step before it is appended.
    pub image_id: Option<String>,
    /// The conversation ends here: clear the user's mode selection.
    pub reset_mode: bool,
    /// Publish a continuation event after delivery.
    pub continues: bool,
}

/// What to do with an event.
pub enum Plan {
    /// The conversation is over: nothing to do.
    Finished,
    /// The event has made its transition already.
    Duplicate,
    /// The next state is entered by the system, not by a user message.
    NotExpected,
    /// The next state waits for the user.
    Wait,
    /// The request is complete: notify the classification system.
    Classify,
    /// Render and send a reply.
    Reply(Reply),
}

// ---------------------------------------------------------------------------
// What each plan is

/// More than the expiry threshold has passed since `last`.
pub open spec fn is_stale(last: u64, now: u64) -> bool {
    now >= last && now - last > STALE_AFTER_MS
}

/// The catalog key and its parameter for the list of `s`: the earlier
/// answer is read from the latest step in the parameter state, up to its
/// first `-` (`toyota-id` gives `models:toyota`).
pub open spec fn source_resolution(
    ss: Seq<TrackerStep>,
    tid: Seq<char>,
    s: FlowStatus,
) -> Result<(Option<Seq<char>>, Option<Seq<char>>), FlowError> {
    match source_of(s) {
        None => Ok((None, None)),
        Some(src) => match src.1 {
            None => Ok((Some(src.0), None)),
            Some(ps) => match latest_step(ss, tid, Some(ps)) {
                None => Err(FlowError::MissingPriorAnswer),
                Some(prior) => Ok((
                    Some(src.0 + ":"@ + before_char(prior.value@, '-')),
                    Some(before_char(prior.value@, '-')),
                )),
            },
        },
    }
}

/// A step about to be stored.
pub open spec fn new_step_is(
    st: TrackerStep,
    tid: Seq<char>,
    now: u64,
    id: Seq<char>,
    status: FlowStatus,
    value: Seq<char>,
    reference: Seq<char>,
) -> bool {
    &&& st.tracker_id@ == tid
    &&& st.timestamp == now
    &&& st.id@ == id
    &&& st.status == status
    &&& st.value@ == value
    &&& st.attached_files@ == Seq::<char>::empty()
    &&& st.message_reference@ == reference
}

pub open spec fn reply_is(
    rep: Reply,
    state: FlowStatus,
    page: nat,
    source: (Option<Seq<char>>, Option<Seq<char>>),
    captured: Seq<char>,
    recipient: Seq<char>,
    continues: bool,
) -> bool {
    &&& rep.state == state
    &&& rep.page == page
    &&& opt_view(rep.catalog_key) == source.0
    &&& opt_view(rep.nav_param) == source.1
    &&& rep.captured@ == captured
    &&& rep.recipient@ == recipient
    &&& rep.continues == continues
    &&& rep.reset_mode == (state == FlowStatus::RequestAccepted)
}

/// The plan for a user message (`event`, delivered under `log`) at time
/// `now`, with `step_id` for the step it may create.
pub open spec fn incoming_plan(
    store: (Seq<RequestTracker>, Seq<TrackerStep>),
    log: MessageLog,
    event: Event,
    now: u64,
    step_id: Seq<char>,
    r: Result<Plan, FlowError>,
) -> bool {
    let ss = store.1;
    let phone = log.phone_number@;
    match latest_tracker(store.0, phone) {
        None => r == Err::<Plan, FlowError>(FlowError::NoActiveConversation),
        Some(t) => if has_event(ss, t.id@, log.register_id@) {
            r == Ok::<Plan, FlowError>(Plan::Duplicate)
        } else {
            match latest_step(ss, t.id@, None) {
                None => r == Err::<Plan, FlowError>(FlowError::NoStepHistory),
                Some(cur) => if is_stale(cur.timestamp, now) && !is_terminal(cur.status) {
                    r matches Ok(Plan::Reply(rep)) && {
                        &&& reply_is(rep, FlowStatus::Cancelled, 1, (None, None), Seq::empty(), phone, false)
                        &&& rep.image_id is None
                        &&& rep.step matches Some(st) && new_step_is(
                            st, t.id@, now, step_id, FlowStatus::Cancelled, Seq::empty(), log.register_id@)
                    }
                } else {
                    match successor_of(cur.status) {
                        None => r == Ok::<Plan, FlowError>(Plan::Finished),
                        Some(next) => if required_kind_of(next) is None {
                            r == Ok::<Plan, FlowError>(Plan::NotExpected)
                        } else {
                            match validation_outcome(required_kind_of(next), table_rule(next), event) {
                                Err(e) => r == Err::<Plan, FlowError>(FlowError::Validation(e)),
                                Ok(c) => if page_choice_number(c) is Some && source_of(cur.status) is Some {
                                    if !(1 <= page_choice_number(c)->0 < PAGE_LIMIT) {
                                        r == Err::<Plan, FlowError>(FlowError::InvalidPage)
                                    } else {
                                        match source_resolution(ss, t.id@, cur.status) {
                                            Err(e) => r == Err::<Plan, FlowError>(e),
                                            Ok(src) => r matches Ok(Plan::Reply(rep)) && {
                                                &&& reply_is(rep, cur.status, page_choice_number(c)->0, src, c, phone, false)
                                                &&& rep.step is None
                                                &&& rep.image_id is None
                                            },
                                        }
                                    }
                                } else {
                                    match source_resolution(ss, t.id@, next) {
                                        Err(e) => r == Err::<Plan, FlowError>(e),
                                        Ok(src) => r matches Ok(Plan::Reply(rep)) && {
                                            &&& reply_is(rep, next, 1, src, c, phone, true)
                                            &&& opt_view(rep.image_id) == (if next == FlowStatus::PartDescriptionProvided {
                                                event_image(event)
                                            } else {
                                                None
                                            })
                                            &&& rep.step matches Some(st) && new_step_is(
                                                st, t.id@, now, step_id, next, c, log.register_id@)
                                        },
                                    }
                                }
                            }
                        },
                    }
                },
            }
        },
    }
}

/// The plan for a continuation event the engine sent itself (under `log`)
/// at time `now`, with `step_id` for the step it may create.
pub open spec fn continuation_plan(
    store: (Seq<RequestTracker>, Seq<TrackerStep>),
    log: MessageLog,
    now: u64,
    step_id: Seq<char>,
    r: Result<Plan, FlowError>,
) -> bool {
    let ss = store.1;
    let phone = log.phone_number@;
    match latest_tracker(store.0, phone) {
        None => r == Err::<Plan, FlowError>(FlowError::NoActiveConversation),
        Some(t) => if has_event(ss, t.id@, log.register_id@) {
            r == Ok::<Plan, FlowError>(Plan::Duplicate)
        } else {
            match latest_step(ss, t.id@, None) {
                None => r == Err::<Plan, FlowError>(FlowError::NoStepHistory),
                Some(cur) => if cur.status == FlowStatus::RequestAccepted {
                    r == Ok::<Plan, FlowError>(Plan::Classify)
                } else {
                    match successor_of(cur.status) {
                        None => r == Ok::<Plan, FlowError>(Plan::Finished),
                        Some(next) => if required_kind_of(next) is Some {
                            r == Ok::<Plan, FlowError>(Plan::Wait)
                        } else {
                            match source_resolution(ss, t.id@, next) {
                                Err(e) => r == Err::<Plan, FlowError>(e),
                                Ok(src) => r matches Ok(Plan::Reply(rep)) && {
                                    &&& reply_is(rep, next, 1, src, Seq::empty(), phone, true)
                                    &&& rep.image_id is None
                                    &&& rep.step matches Some(st) && new_step_is(
                                        st, t.id@, now, step_id, next, Seq::empty(), log.register_id@)
                                },
                            }
                        },
                    }
                },
            }
        },
    }
}

// ---------------------------------------------------------------------------
// Planning

fn resolve_source(store: &TrackerStore, tracker_id: &String, state: FlowStatus) -> (r: Result<(Option<String>, Option<String>), FlowError>)
    ensures
        match r {
            Ok(kp) => source_resolution(store@.1, tracker_id@, state) == Ok::<(Option<Seq<char>>, Option<Seq<char>>), FlowError>((opt_view(kp.0), opt_view(kp.1))),
            Err(e) => source_resolution(store@.1, tracker_id@, state) == Err::<(Option<Seq<char>>, Option<Seq<char>>), FlowError>(e),
        },
{
    let def = state.value();
    match def.data_origin {
        None => Ok((None, None)),
        Some(ds) => match ds.parameter_state {
            None => Ok((Some(ds.catalog), None)),
            Some(ps) => match store.get_step_by_status(tracker_id, ps) {
                None => Err(FlowError::MissingPriorAnswer),
                Some(prior) => {
                    let param = String::from_str(text_before(prior.value.as_str(), '-'));
                    let mut key = ds.catalog;
                    key.append(":");
                    key.append(param.as_str());
                    Ok((Some(key), Some(param)))
                },
            },
        },
    }
}

fn fresh_step(tracker_id: &String, now: u64, step_id: &String, status: FlowStatus, value: String, reference: &String) -> (r: TrackerStep)
    ensures
        new_step_is(r, tracker_id@, now, step_id@, status, value@, reference@),
{
    TrackerStep {
        tracker_id: tracker_id.clone(),
        timestamp: now,
        id: step_id.clone(),
        status,
        value,
        attached_files: String::new(),
        message_reference: reference.clone(),
    }
}

/// Plans the handling of a user message: find the conversation and its
/// current state, refuse a replayed event, expire a stale conversation,
/// validate the message against the next state and plan that state's reply
/// (or, for a navigation choice, the current list at the page it asks for).
pub fn plan_incoming(
    store: &TrackerStore,
    log: &MessageLog,
    event: &Event,
    now: u64,
    step_id: &String,
) -> (r: Result<Plan, FlowError>)
    ensures
        incoming_plan(store@, *log, *event, now, step_id@, r),
        r matches Ok(Plan::Reply(rep)) ==> 1 <= rep.page < PAGE_LIMIT,
{
    let tracker = match store.get_last_tracker(&log.phone_number) {
        None => { return Err(FlowError::NoActiveConversation); },
        Some(t) => t,
    };
    if store.records_event(&tracker.id, &log.register_id) {
        return Ok(Plan::Duplicate);
    }
    let cur = match store.get_last_tracker_step(&tracker.id) {
        None => { return Err(FlowError::NoStepHistory); },
        Some(c) => c,
    };
    let recipient = log.phone_number.clone();
    if now >= cur.timestamp && now - cur.timestamp > STALE_AFTER_MS && cur.status.successor().is_some() {
        let step = fresh_step(&tracker.id, now, step_id, FlowStatus::Cancelled, String::new(), &log.register_id);
        return Ok(Plan::Reply(Reply {
            state: FlowStatus::Cancelled,
            step: Some(step),
            page: 1,
            catalog_key: None,
            nav_param: None,
            captured: String::new(),
            recipient,
            image_id: None,
            reset_mode: false,
            continues: false,
        }));
    }
    let next = match cur.status.successor() {
        None => { return Ok(Plan::Finished); },
        Some(n) => n,
    };
    if next.required_response().is_none() {
        return Ok(Plan::NotExpected);
    }
    let def = next.value();
    let content = match validate(&def, event) {
        Err(e) => { return Err(FlowError::Validation(e)); },
        Ok(c) => c,
    };
    let nav = parse_page_choice(content.as_str());
    let current_lists = cur.status.value().data_origin.is_some();
    match nav {
        Some(page) => if current_lists {
            if page < 1 || page >= PAGE_LIMIT {
                return Err(FlowError::InvalidPage);
            }
            let (key, param) = match resolve_source(store, &tracker.id, cur.status) {
                Err(e) => { return Err(e); },
                Ok(kp) => kp,
            };
            return Ok(Plan::Reply(Reply {
                state: cur.status,
                step: None,
                page,
                catalog_key: key,
                nav_param: param,
                captured: content,
                recipient,
                image_id: None,
                reset_mode: cur.status == FlowStatus::RequestAccepted,
                continues: false,
            }));
        },
        None => {},
    }
    let (key, param) = match resolve_source(store, &tracker.id, next) {
        Err(e) => { return Err(e); },
        Ok(kp) => kp,
    };
    let image_id = if next == FlowStatus::PartDescriptionProvided { get_image_id(event) } else { None };
    let step = fresh_step(&tracker.id, now, step_id, next, content.clone(), &log.register_id);
    Ok(Plan::Reply(Reply {
        state: next,
        step: Some(step),
        page: 1,
        catalog_key: key,
        nav_param: param,
        captured: content,
        recipient,
        image_id,
        reset_mode: next == FlowStatus::RequestAccepted,
        continues: true,
    }))
}

/// Plans a continuation: advance into the next state where the system
/// enters it on its own, stop where it waits for the user, and at an
/// accepted request ask for classification.
pub fn continue_flow(
    store: &TrackerStore,
    log: &MessageLog,
    now: u64,
    step_id: &String,
) -> (r: Result<Plan, FlowError>)
    ensures
        continuation_plan(store@, *log, now, step_id@, r),
        r matches Ok(Plan::Reply(rep)) ==> 1 <= rep.page < PAGE_LIMIT,
{
    let tracker = match store.get_last_tracker(&log.phone_number) {
        None => { return Err(FlowError::NoActiveConversation); },
        Some(t) => t,
    };
    if store.records_event(&tracker.id, &log.register_id) {
        return Ok(Plan::Duplicate);
    }
    let cur = match store.get_last_tracker_step(&tracker.id) {
        None => { return Err(FlowError::NoStepHistory); },
        Some(c) => c,
    };
    if cur.status == FlowStatus::RequestAccepted {
        return Ok(Plan::Classify);
    }
    let next = match cur.status.successor() {
        None => { return Ok(Plan::Finished); },
        Some(n) => n,
    };
    if next.required_response().is_some() {
        return Ok(Plan::Wait);
    }
    let (key, param) = match resolve_source(store, &tracker.id, next) {
        Err(e) => { return Err(e); },
        Ok(kp) => kp,
    };
    let step = fresh_step(&tracker.id, now, step_id, next, String::new(), &log.register_id);
    Ok(Plan::Reply(Reply {
        state: next,
        step: Some(step),
        page: 1,
        catalog_key: key,
        nav_param: param,
        captured: String::new(),
        recipient: log.phone_number.clone(),
        image_id: None,
        reset_mode: next == FlowStatus::RequestAccepted,
        continues: true,
    }))
}

// ---------------------------------------------------------------------------
// Starting a conversation

/// The first step of a conversation, stored with its tracker.
pub open spec fn started(
    old_store: (Seq<RequestTracker>, Seq<TrackerStep>),
    new_store: (Seq<RequestTracker>, Seq<TrackerStep>),
    log: MessageLog,
    now: u64,
    tracker_id: Seq<char>,
    step_id: Seq<char>,
) -> bool {
    &&& new_store.0.len() == old_store.0.len() + 1
    &&& new_store.0.subrange(0, old_store.0.len() as int) == old_store.0
    &&& new_store.0.last().phone_number@ == log.phone_number@
    &&& new_store.0.last().timestamp == now
    &&& new_store.0.last().id@ == tracker_id
    &&& new_store.1.len() == old_store.1.len() + 1
    &&& new_store.1.subrange(0, old_store.1.len() as int) == old_store.1
    &&& new_step_is(new_store.1.last(), tracker_id, now, step_id, FlowStatus::FlowStarted, Seq::empty(), log.register_id@)
}

/// Starts a new conversation for the envelope's phone number: stores a
/// tracker and its first step, in the start state, and plans the start
/// prompt. An earlier conversation of the number stays, superseded. Where a
/// step of `tracker_id` already records this event, the start was made
/// before: nothing is stored and the event is a duplicate.
pub fn start_conversation(
    store: &mut TrackerStore,
    log: &MessageLog,
    now: u64,
    tracker_id: &String,
    step_id: &String,
) -> (r: Plan)
    ensures
        has_event(old(store)@.1, tracker_id@, log.register_id@) ==> final(store)@ == old(store)@ && r is Duplicate,
        !has_event(old(store)@.1, tracker_id@, log.register_id@) ==> {
            &&& started(old(store)@, final(store)@, *log, now, tracker_id@, step_id@)
            &&& r matches Plan::Reply(rep)
                && reply_is(rep, FlowStatus::FlowStarted, 1, (None, None), Seq::empty(), log.phone_number@, false)
                && rep.step is None && rep.image_id is None
        },
{
    if store.records_event(tracker_id, &log.register_id) {
        return Plan::Duplicate;
    }
    let tracker = RequestTracker { phone_number: log.phone_number.clone(), timestamp: now, id: tracker_id.clone() };
    store.create_new_tracker(tracker);
    let step = fresh_step(tracker_id, now, step_id, FlowStatus::FlowStarted, String::new(), &log.register_id);
    let _ = store.create_new_step(step);
    assert(store@.0.subrange(0, old(store)@.0.len() as int) == old(store)@.0);
    assert(store@.1.subrange(0, old(store)@.1.len() as int) == old(store)@.1);
    Plan::Reply(Reply {
        state: FlowStatus::FlowStarted,
        step: None,
        page: 1,
        catalog_key: None,
        nav_param: None,
        captured: String::new(),
        recipient: log.phone_number.clone(),
        image_id: None,
        reset_mode: false,
        continues: false,
    })
}

/// The caller that started a conversation.
pub open spec fn platform_origin() -> Seq<char> {
    "1"@
}

/// The engine itself, sending a continuation.
pub open spec fn own_origin() -> Seq<char> {
    "3"@
}

/// What handling an event from the platform or from the engine itself
/// gives: a new conversation (origin `1`), a continuation plan (origin `3`),
/// or a refusal of any other origin.
pub open spec fn outgoing_outcome(
    old_store: (Seq<RequestTracker>, Seq<TrackerStep>),
    new_store: (Seq<RequestTracker>, Seq<TrackerStep>),
    log: MessageLog,
    now: u64,
    tracker_id: Seq<char>,
    step_id: Seq<char>,
    r: Result<Plan, FlowError>,
) -> bool {
    if log.origin_system@ == platform_origin() {
        if has_event(old_store.1, tracker_id, log.register_id@) {
            new_store == old_store && r == Ok::<Plan, FlowError>(Plan::Duplicate)
        } else {
            &&& started(old_store, new_store, log, now, tracker_id, step_id)
            &&& r matches Ok(Plan::Reply(rep))
                && reply_is(rep, FlowStatus::FlowStarted, 1, (None, None), Seq::empty(), log.phone_number@, false)
                && rep.step is None && rep.image_id is None
        }
    } else if log.origin_system@ == own_origin() {
        new_store == old_store && continuation_plan(old_store, log, now, step_id, r)
    } else {
        new_store == old_store && r == Err::<Plan, FlowError>(FlowError::UnsupportedOrigin)
    }
}

/// Handles an event the platform or the engine itself sent: a new
/// conversation (origin `1`), or a continuation (origin `3`).
pub fn plan_outgoing(
    store: &mut TrackerStore,
    log: &MessageLog,
    now: u64,
    tracker_id: &String,
    step_id: &String,
) -> (r: Result<Plan, FlowError>)
    ensures
        outgoing_outcome(old(store)@, final(store)@, *log, now, tracker_id@, step_id@, r),
        r matches Ok(Plan::Reply(rep)) ==> 1 <= rep.page < PAGE_LIMIT,
{
    proof {
        reveal_strlit("1");
        reveal_strlit("3");
        assert(platform_origin()[0] != own_origin()[0]);
    }
    if text_is(&log.origin_system, "1") {
        Ok(start_conversation(store, log, now, tracker_id, step_id))
    } else if text_is(&log.origin_system, "3") {
        continue_flow(store, log, now, step_id)
    } else {
        Err(FlowError::UnsupportedOrigin)
    }
}

// ---------------------------------------------------------------------------
// Entry points with fresh record ids

/// Relies on `uuid::Uuid::new_v4` and its simple form: a random
/// identifier written as 32 hexadecimal digits.
#[verifier::external_body]
fn fresh_record_id() -> (r: String)
    ensures
        r@.len() == 32,
{
    uuid::Uuid::new_v4().simple().to_string()
}

/// Plans the handling of a user message at time `now`, with a fresh id for
/// the step it may create.
pub fn incoming_message(store: &TrackerStore, log: &MessageLog, event: &Event, now: u64) -> (r: Result<Plan, FlowError>)
    ensures
        exists|step_id: Seq<char>| step_id.len() == 32 && #[trigger] incoming_plan(store@, *log, *event, now, step_id, r),
        r matches Ok(Plan::Reply(rep)) ==> 1 <= rep.page < PAGE_LIMIT,
{
    let step_id = fresh_record_id();
    let r = plan_incoming(store, log, event, now, &step_id);
    assert(step_id@.len() == 32 && incoming_plan(store@, *log, *event, now, step_id@, r));
    r
}

/// Handles an event the platform or the engine itself sent at time `now`,
/// with fresh ids for the tracker and step it may create.
pub fn outgoing_message(store: &mut TrackerStore, log: &MessageLog, now: u64) -> (r: Result<Plan, FlowError>)
    ensures
        exists|tracker_id: Seq<char>, step_id: Seq<char>|
            tracker_id.len() == 32 && step_id.len() == 32
            && #[trigger] outgoing_outcome(old(store)@, final(store)@, *log, now, tracker_id, step_id, r),
        r matches Ok(Plan::Reply(rep)) ==> 1 <= rep.page < PAGE_LIMIT,
{
    let tracker_id = fresh_record_id();
    let step_id = fresh_record_id();
    let r = plan_outgoing(store, log, now, &tracker_id, &step_id);
    assert(outgoing_outcome(old(store)@, store@, *log, now, tracker_id@, step_id@, r));
    r
}

// ---------------------------------------------------------------------------
// Rendering

/// The body of the message of state `s`, with the captured value echoed
/// where the template asks for it.
pub open spec fn rendered_body(s: FlowStatus, captured: Seq<char>) -> Seq<char> {
    match echo_suffix_of(s) {
        Some(suffix) => template_body_of(s) + captured + suffix,
        None => template_body_of(s),
    }
}

/// The message type the sender expects for a template kind.
pub open spec fn message_type_of(s: FlowStatus) -> Seq<char> {
    if template_kind_of(s) == TemplateKind::List { "list"@ } else { "text"@ }
}

/// Renders a planned reply from its state's template: the body (echoing the
/// captured content where the template asks), and for a list the page of
/// `catalog` the reply asks for.
pub fn execute_function(reply: &Reply, catalog: &Vec<String>) -> (r: MessageRequest)
    requires
        1 <= reply.page < PAGE_LIMIT,
    ensures
        r.system_id == SYSTEM_ID,
        r.to@.len() == 1,
        r.to@[0]@ == reply.recipient@,
        r.message_type@ == message_type_of(reply.state),
        opt_view(r.content.body) == Some(rendered_body(reply.state, reply.captured@)),
        r.content.buttons is None,
        template_kind_of(reply.state) == TemplateKind::List ==> (r.content.list matches Some(l)
            && Some(l.title@) == list_title_of(reply.state)
            && choice_views(l.choices@) == page_choices(string_views(catalog@), reply.page as nat, opt_view(reply.nav_param))),
        template_kind_of(reply.state) == TemplateKind::Text ==> r.content.list is None,
{
    let def = reply.state.value();
    let template = def.successful_response;
    let mut body = template.body;
    match template.echo_suffix {
        Some(suffix) => {
            body.append(reply.captured.as_str());
            body.append(suffix.as_str());
        },
        None => {},
    }
    let mut to: Vec<String> = Vec::new();
    to.push(reply.recipient.clone());
    match template.kind {
        TemplateKind::List => {
            let title = match template.list_title {
                Some(t) => t,
                None => String::new(),
            };
            let param = match &reply.nav_param {
                Some(p) => Some(p),
                None => None,
            };
            let choices = catalog_page(catalog, reply.page, param);
            MessageRequest {
                system_id: SYSTEM_ID,
                to,
                message_type: String::from_str("list"),
                content: MessageContent { body: Some(body), list: Some(ListMessage { title, choices }), buttons: None },
            }
        },
        TemplateKind::Text => MessageRequest {
            system_id: SYSTEM_ID,
            to,
            message_type: String::from_str("text"),
            content: MessageContent { body: Some(body), list: None, buttons: None },
        },
    }
}

impl Reply {
    /// Records the reference of an uploaded file on the planned step.
    pub fn attach_file(&mut self, file_ref: String)
        ensures
            final(self).state == old(self).state,
            final(self).page == old(self).page,
            final(self).continues == old(self).continues,
            match old(self).step {
                Some(s) => final(self).step matches Some(t) && t.attached_files@ == file_ref@
                    && t.tracker_id == s.tracker_id && t.timestamp == s.timestamp && t.id == s.id
                    && t.status == s.status && t.value == s.value && t.message_reference == s.message_reference,
                None => final(self).step is None,
            },
    {
        match &mut self.step {
            Some(s) => { s.attached_files = file_ref; },
            None => {},
        }
    }
}

// ---------------------------------------------------------------------------
// Laws

/// A user message for an event that a step of the conversation already
/// records plans no transition, whatever its content: replaying an event
/// after its step was appended is a no-op.
pub proof fn replayed_event_is_duplicate(
    store: (Seq<RequestTracker>, Seq<TrackerStep>),
    log: MessageLog,
    event: Event,
    now: u64,
    step_id: Seq<char>,
    first: Result<Plan, FlowError>,
    recorded: TrackerStep,
    replay: Event,
    later: u64,
    later_id: Seq<char>,
    again: Result<Plan, FlowError>,
)
    requires
        incoming_plan(store, log, event, now, step_id, first),
        first matches Ok(Plan::Reply(rep)) && rep.step == Some(recorded),
        incoming_plan((store.0, appended(store.1, recorded)), log, replay, later, later_id, again),
    ensures
        again == Ok::<Plan, FlowError>(Plan::Duplicate),
{
    let st = recorded;
    let t = latest_tracker(store.0, log.phone_number@)->0;
    let ss2 = appended(store.1, st);
    assert(st.tracker_id@ == t.id@ && st.message_reference@ == log.register_id@);
    if !has_event(store.1, st.tracker_id@, st.message_reference@) {
        assert(ss2[store.1.len() as int] == st);
    } else {
        let j = choose|j: int| 0 <= j < store.1.len() && #[trigger] store.1[j].tracker_id@ == st.tracker_id@
            && store.1[j].message_reference@ == st.message_reference@;
        assert(ss2[j] == store.1[j]);
    }
    assert(has_event(ss2, t.id@, log.register_id@));
}

/// A conversation whose latest step is older than the expiry threshold and
/// not terminal is cancelled by its next user message, whatever that
/// message holds.
pub proof fn stale_conversation_expires(
    store: (Seq<RequestTracker>, Seq<TrackerStep>),
    log: MessageLog,
    event: Event,
    now: u64,
    step_id: Seq<char>,
    r: Result<Plan, FlowError>,
)
    requires
        incoming_plan(store, log, event, now, step_id, r),
        latest_tracker(store.0, log.phone_number@) matches Some(t)
            && !has_event(store.1, t.id@, log.register_id@)
            && (latest_step(store.1, t.id@, None) matches Some(cur)
            && is_stale(cur.timestamp, now)
            && !is_terminal(cur.status)),
    ensures
        r matches Ok(Plan::Reply(rep)) && rep.state == FlowStatus::Cancelled
            && (rep.step matches Some(st) && st.status == FlowStatus::Cancelled
            && st.value@ == Seq::<char>::empty()),
{
}

/// Two user messages arriving on the same stale, non-terminal conversation
/// at the same time plan the same cancellation, whatever their shape or
/// content: same state, same step, same notice.
pub proof fn expiry_ignores_content(
    store: (Seq<RequestTracker>, Seq<TrackerStep>),
    log: MessageLog,
    first: Event,
    second: Event,
    now: u64,
    step_id: Seq<char>,
    r1: Result<Plan, FlowError>,
    r2: Result<Plan, FlowError>,
)
    requires
        incoming_plan(store, log, first, now, step_id, r1),
        incoming_plan(store, log, second, now, step_id, r2),
        latest_tracker(store.0, log.phone_number@) matches Some(t)
            && !has_event(store.1, t.id@, log.register_id@)
            && (latest_step(store.1, t.id@, None) matches Some(cur)
            && is_stale(cur.timestamp, now)
            && !is_terminal(cur.status)),
    ensures
        r1 matches Ok(Plan::Reply(a)) && (r2 matches Ok(Plan::Reply(b))
            && a.state == FlowStatus::Cancelled && b.state == a.state
            && a.page == b.page && a.captured@ == b.captured@ && a.recipient@ == b.recipient@
            && opt_view(a.nav_param) == opt_view(b.nav_param)
            && opt_view(a.catalog_key) == opt_view(b.catalog_key)
            && (a.step matches Some(x) && (b.step matches Some(y)
            && x.tracker_id@ == y.tracker_id@ && x.timestamp == y.timestamp && x.id@ == y.id@
            && x.status == y.status && x.value@ == y.value@ && x.attached_files@ == y.attached_files@
            && x.message_reference@ == y.message_reference@))),
{
}

/// At the brand list, a list selection (not a page choice) on a live
/// conversation records the brand: a step in the brand-selected state,
/// holding the selection's id, for the event, followed by a continuation.
pub proof fn brand_selection_recorded(
    store: (Seq<RequestTracker>, Seq<TrackerStep>),
    log: MessageLog,
    event: Event,
    now: u64,
    step_id: Seq<char>,
    r: Result<Plan, FlowError>,
)
    requires
        incoming_plan(store, log, event, now, step_id, r),
        latest_tracker(store.0, log.phone_number@) matches Some(t)
            && !has_event(store.1, t.id@, log.register_id@)
            && (latest_step(store.1, t.id@, None) matches Some(cur)
            && cur.status == FlowStatus::BrandModalSent
            && !is_stale(cur.timestamp, now)),
        event_kind(event) == Some(MessageType::ListSelection),
        event_content(event) matches Some(c) && page_choice_number(c) is None,
    ensures
        r matches Ok(Plan::Reply(rep)) && rep.state == FlowStatus::BrandSelected && rep.continues
            && (rep.step matches Some(st)
            && new_step_is(st, latest_tracker(store.0, log.phone_number@)->0.id@, now, step_id,
                FlowStatus::BrandSelected, event_content(event)->0, log.register_id@)),
{
}

/// Once a brand is recorded, the continuation lists page 1 of the models of
/// that brand: the catalog `models:<brand>`, the brand read from the
/// selection's id up to its first `-`.
pub proof fn model_list_follows_brand(
    store: (Seq<RequestTracker>, Seq<TrackerStep>),
    log: MessageLog,
    now: u64,
    step_id: Seq<char>,
    r: Result<Plan, FlowError>,
)
    requires
        continuation_plan(store, log, now, step_id, r),
        latest_tracker(store.0, log.phone_number@) matches Some(t)
            && !has_event(store.1, t.id@, log.register_id@)
            && (latest_step(store.1, t.id@, None) matches Some(cur)
            && cur.status == FlowStatus::BrandSelected),
    ensures
        r matches Ok(Plan::Reply(rep)) && rep.state == FlowStatus::ModelModalSent && rep.page == 1
            && (latest_step(store.1, latest_tracker(store.0, log.phone_number@)->0.id@, Some(FlowStatus::BrandSelected)) matches Some(b)
            && opt_view(rep.catalog_key) == Some("models"@ + ":"@ + before_char(b.value@, '-'))
            && opt_view(rep.nav_param) == Some(before_char(b.value@, '-'))),
{
    let t = latest_tracker(store.0, log.phone_number@)->0;
    let cur = latest_step(store.1, t.id@, None)->0;
    let k = choose|i: int| is_latest_step(store.1, t.id@, None, i);
    assert(is_latest_step(store.1, t.id@, None, k));
    assert(step_selected(store.1[k], t.id@, Some(FlowStatus::BrandSelected)));
    lemma_latest_exists(store.1, t.id@, Some(FlowStatus::BrandSelected), k);
}

} // verus!
