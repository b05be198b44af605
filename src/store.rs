//! The tracker store: conversations (trackers) and their append-only step
//! history, with the lookups the engine needs, plus the record layout used
//! by the durable store behind it.

use vstd::prelude::*;
use crate::flow::{FlowStatus, ordinal, state_at};
use crate::pagination::string_views;
use crate::text::{contains_seq, contains_text, decimal, decimal_string, decimal_value, lemma_decimal_round_trip, is_decimal, is_prefix, parse_capped, starts_with};

verus! {

/// One conversation attempt of a phone number.
pub struct RequestTracker {
    pub phone_number: String,
    pub timestamp: u64,
    pub id: String,
}

/// One transition of a conversation, never edited once stored.
pub struct TrackerStep {
    pub tracker_id: String,
    pub timestamp: u64,
    pub id: String,
    pub status: FlowStatus,
    pub value: String,
    pub attached_files: String,
    pub message_reference: String,
}

#[derive(PartialEq, Eq, Structural, Clone, Copy, Debug)]
pub enum StoreError {
    /// A step for the same inbound event of the same tracker is stored.
    DuplicateEvent,
}

impl RequestTracker {
    /// A copy of this tracker.
    pub fn duplicate(&self) -> (r: RequestTracker)
        ensures
            r == *self,
    {
        RequestTracker { phone_number: self.phone_number.clone(), timestamp: self.timestamp, id: self.id.clone() }
    }
}

impl TrackerStep {
    /// A copy of this step.
    pub fn duplicate(&self) -> (r: TrackerStep)
        ensures
            r == *self,
    {
        TrackerStep {
            tracker_id: self.tracker_id.clone(),
            timestamp: self.timestamp,
            id: self.id.clone(),
            status: self.status,
            value: self.value.clone(),
            attached_files: self.attached_files.clone(),
            message_reference: self.message_reference.clone(),
        }
    }
}

// ---------------------------------------------------------------------------
// Lookups, stated over sequences of records

/// Tracker `i` is the latest of `phone`: no tracker of `phone` is newer, and
/// none as new comes after it.
pub open spec fn is_latest_tracker(ts: Seq<RequestTracker>, phone: Seq<char>, i: int) -> bool {
    &&& 0 <= i < ts.len()
    &&& ts[i].phone_number@ == phone
    &&& forall|j: int| 0 <= j < ts.len() && ts[j].phone_number@ == phone ==> #[trigger] ts[j].timestamp <= ts[i].timestamp
    &&& forall|j: int| i < j < ts.len() && ts[j].phone_number@ == phone ==> #[trigger] ts[j].timestamp < ts[i].timestamp
}

pub open spec fn has_tracker(ts: Seq<RequestTracker>, phone: Seq<char>) -> bool {
    exists|j: int| 0 <= j < ts.len() && #[trigger] ts[j].phone_number@ == phone
}

/// The latest tracker of `phone`.
pub open spec fn latest_tracker(ts: Seq<RequestTracker>, phone: Seq<char>) -> Option<RequestTracker> {
    if exists|i: int| is_latest_tracker(ts, phone, i) {
        Some(ts[choose|i: int| is_latest_tracker(ts, phone, i)])
    } else {
        None
    }
}

/// Step `s` belongs to tracker `tid` and, where `state` is given, is in it.
pub open spec fn step_selected(s: TrackerStep, tid: Seq<char>, state: Option<FlowStatus>) -> bool {
    s.tracker_id@ == tid && match state {
        Some(st) => s.status == st,
        None => true,
    }
}

/// Step `i` is the latest of those selected: none is newer, and none as new
/// comes after it.
pub open spec fn is_latest_step(ss: Seq<TrackerStep>, tid: Seq<char>, state: Option<FlowStatus>, i: int) -> bool {
    &&& 0 <= i < ss.len()
    &&& step_selected(ss[i], tid, state)
    &&& forall|j: int| 0 <= j < ss.len() && step_selected(ss[j], tid, state) ==> #[trigger] ss[j].timestamp <= ss[i].timestamp
    &&& forall|j: int| i < j < ss.len() && step_selected(ss[j], tid, state) ==> #[trigger] ss[j].timestamp < ss[i].timestamp
}

pub open spec fn has_step(ss: Seq<TrackerStep>, tid: Seq<char>, state: Option<FlowStatus>) -> bool {
    exists|j: int| 0 <= j < ss.len() && #[trigger] step_selected(ss[j], tid, state)
}

/// The latest step of tracker `tid` (in `state`, where given).
pub open spec fn latest_step(ss: Seq<TrackerStep>, tid: Seq<char>, state: Option<FlowStatus>) -> Option<TrackerStep> {
    if exists|i: int| is_latest_step(ss, tid, state, i) {
        Some(ss[choose|i: int| is_latest_step(ss, tid, state, i)])
    } else {
        None
    }
}

/// A step of tracker `tid` records inbound event `reference`.
pub open spec fn has_event(ss: Seq<TrackerStep>, tid: Seq<char>, reference: Seq<char>) -> bool {
    exists|j: int| 0 <= j < ss.len() && #[trigger] ss[j].tracker_id@ == tid && ss[j].message_reference@ == reference
}

/// The history after appending `step`: unchanged where its event is
/// recorded already.
pub open spec fn appended(ss: Seq<TrackerStep>, step: TrackerStep) -> Seq<TrackerStep> {
    if has_event(ss, step.tracker_id@, step.message_reference@) {
        ss
    } else {
        ss.push(step)
    }
}

proof fn lemma_latest_tracker_unique(ts: Seq<RequestTracker>, phone: Seq<char>, i: int)
    requires
        is_latest_tracker(ts, phone, i),
    ensures
        latest_tracker(ts, phone) == Some(ts[i]),
{
    let k = choose|k: int| is_latest_tracker(ts, phone, k);
    assert(is_latest_tracker(ts, phone, k));
    if k < i {
        assert(ts[i].timestamp < ts[k].timestamp);
        assert(ts[i].timestamp <= ts[k].timestamp);
        assert(ts[k].timestamp <= ts[i].timestamp);
    } else if i < k {
        assert(ts[k].timestamp < ts[i].timestamp);
        assert(ts[i].timestamp <= ts[k].timestamp);
    }
}

proof fn lemma_latest_step_unique(ss: Seq<TrackerStep>, tid: Seq<char>, state: Option<FlowStatus>, i: int)
    requires
        is_latest_step(ss, tid, state, i),
    ensures
        latest_step(ss, tid, state) == Some(ss[i]),
{
    let k = choose|k: int| is_latest_step(ss, tid, state, k);
    assert(is_latest_step(ss, tid, state, k));
    if k < i {
        assert(ss[i].timestamp < ss[k].timestamp);
        assert(ss[k].timestamp <= ss[i].timestamp);
    } else if i < k {
        assert(ss[k].timestamp < ss[i].timestamp);
        assert(ss[i].timestamp <= ss[k].timestamp);
    }
}

/// A selected step makes the latest selected step exist.
pub proof fn lemma_latest_exists(ss: Seq<TrackerStep>, tid: Seq<char>, state: Option<FlowStatus>, k: int)
    requires
        0 <= k < ss.len(),
        step_selected(ss[k], tid, state),
    ensures
        latest_step(ss, tid, state) is Some,
    decreases ss.len(),
{
    let n = ss.len() - 1;
    let pre = ss.drop_last();
    if k == n && !has_step(pre, tid, state) {
        assert(is_latest_step(ss, tid, state, k)) by {
            assert forall|j: int| 0 <= j < ss.len() && step_selected(ss[j], tid, state) implies j == k by {
                if j < n { assert(pre[j] == ss[j]); }
            }
        }
    } else {
        let k2 = if k < n { k } else {
            choose|j: int| 0 <= j < pre.len() && #[trigger] step_selected(pre[j], tid, state)
        };
        assert(pre[k2] == ss[k2]);
        lemma_latest_exists(pre, tid, state, k2);
        let i = choose|i: int| is_latest_step(pre, tid, state, i);
        assert(is_latest_step(pre, tid, state, i));
        if step_selected(ss[n], tid, state) && ss[n].timestamp >= ss[i].timestamp {
            assert(is_latest_step(ss, tid, state, n)) by {
                assert forall|j: int| 0 <= j < ss.len() && step_selected(ss[j], tid, state) implies #[trigger] ss[j].timestamp <= ss[n].timestamp by {
                    if j < n { assert(pre[j] == ss[j]); }
                }
            }
        } else {
            assert(is_latest_step(ss, tid, state, i)) by {
                assert forall|j: int| 0 <= j < ss.len() && step_selected(ss[j], tid, state) implies #[trigger] ss[j].timestamp <= ss[i].timestamp by {
                    if j < n { assert(pre[j] == ss[j]); }
                }
                assert forall|j: int| i < j < ss.len() && step_selected(ss[j], tid, state) implies #[trigger] ss[j].timestamp < ss[i].timestamp by {
                    if j < n { assert(pre[j] == ss[j]); }
                }
            }
        }
    }
}

// ---------------------------------------------------------------------------
// The store

/// All trackers and steps, in the order they were stored.
pub struct TrackerStore {
    trackers: Vec<RequestTracker>,
    steps: Vec<TrackerStep>,
}

impl View for TrackerStore {
    type V = (Seq<RequestTracker>, Seq<TrackerStep>);

    closed spec fn view(&self) -> Self::V {
        (self.trackers@, self.steps@)
    }
}

impl TrackerStore {
    /// An empty store.
    pub fn new() -> (r: TrackerStore)
        ensures
            r@.0.len() == 0,
            r@.1.len() == 0,
    {
        TrackerStore { trackers: Vec::new(), steps: Vec::new() }
    }

    /// Stores a new tracker; an older tracker of the same phone number stays
    /// and stops being the latest by age alone.
    pub fn create_new_tracker(&mut self, tracker: RequestTracker) -> (r: String)
        ensures
            final(self)@.0 == old(self)@.0.push(tracker),
            final(self)@.1 == old(self)@.1,
            r@ == "whatsapp-request:"@ + tracker.id@,
    {
        let key = tracker_key(&tracker.id);
        self.trackers.push(tracker);
        key
    }

    /// The latest tracker of `phone`, or `None` where it has none.
    pub fn get_last_tracker(&self, phone: &String) -> (r: Option<&RequestTracker>)
        ensures
            match r {
                Some(t) => latest_tracker(self@.0, phone@) == Some(*t),
                None => latest_tracker(self@.0, phone@) is None,
            },
            r is Some <==> has_tracker(self@.0, phone@),
    {
        let mut best: Option<usize> = None;
        let mut i: usize = 0;
        while i < self.trackers.len()
            invariant
                i <= self.trackers@.len(),
                match best {
                    Some(b) => is_latest_tracker(self.trackers@.subrange(0, i as int), phone@, b as int),
                    None => !has_tracker(self.trackers@.subrange(0, i as int), phone@),
                },
            decreases self.trackers@.len() - i,
        {
            let ghost pre = self.trackers@.subrange(0, i as int);
            let ghost next = self.trackers@.subrange(0, i as int + 1);
            assert(next == pre.push(self.trackers@[i as int]));
            if self.trackers[i].phone_number == *phone {
                match best {
                    Some(b) => {
                        if self.trackers[i].timestamp >= self.trackers[b].timestamp {
                            best = Some(i);
                            assert(is_latest_tracker(next, phone@, i as int));
                        } else {
                            assert(is_latest_tracker(next, phone@, b as int));
                        }
                    },
                    None => {
                        best = Some(i);
                        assert(is_latest_tracker(next, phone@, i as int));
                    },
                }
            } else {
                match best {
                    Some(b) => { assert(is_latest_tracker(next, phone@, b as int)); },
                    None => {
                        assert forall|j: int| 0 <= j < next.len() implies #[trigger] next[j].phone_number@ != phone@ by {
                            if j < pre.len() { assert(next[j] == pre[j]); }
                        }
                    },
                }
            }
            i = i + 1;
        }
        assert(self.trackers@.subrange(0, i as int) == self.trackers@);
        match best {
            Some(b) => {
                proof { lemma_latest_tracker_unique(self.trackers@, phone@, b as int); }
                Some(&self.trackers[b])
            },
            None => {
                assert(!exists|k: int| is_latest_tracker(self.trackers@, phone@, k));
                None
            },
        }
    }

    /// The latest step of tracker `tracker_id`, among those in `state` where
    /// it is given; `None` where there is none.
    pub fn latest_step_where(&self, tracker_id: &String, state: Option<FlowStatus>) -> (r: Option<&TrackerStep>)
        ensures
            match r {
                Some(s) => latest_step(self@.1, tracker_id@, state) == Some(*s),
                None => latest_step(self@.1, tracker_id@, state) is None,
            },
            r is Some <==> has_step(self@.1, tracker_id@, state),
    {
        let mut best: Option<usize> = None;
        let mut i: usize = 0;
        while i < self.steps.len()
            invariant
                i <= self.steps@.len(),
                match best {
                    Some(b) => is_latest_step(self.steps@.subrange(0, i as int), tracker_id@, state, b as int),
                    None => !has_step(self.steps@.subrange(0, i as int), tracker_id@, state),
                },
            decreases self.steps@.len() - i,
        {
            let ghost pre = self.steps@.subrange(0, i as int);
            let ghost next = self.steps@.subrange(0, i as int + 1);
            assert(next == pre.push(self.steps@[i as int]));
            let s = &self.steps[i];
            let selected = s.tracker_id == *tracker_id && match state {
                Some(st) => s.status == st,
                None => true,
            };
            if selected {
                match best {
                    Some(b) => {
                        if s.timestamp >= self.steps[b].timestamp {
                            best = Some(i);
                            assert(is_latest_step(next, tracker_id@, state, i as int));
                        } else {
                            assert(is_latest_step(next, tracker_id@, state, b as int));
                        }
                    },
                    None => {
                        best = Some(i);
                        assert(is_latest_step(next, tracker_id@, state, i as int));
                    },
                }
            } else {
                match best {
                    Some(b) => { assert(is_latest_step(next, tracker_id@, state, b as int)); },
                    None => {
                        assert forall|j: int| 0 <= j < next.len() implies !#[trigger] step_selected(next[j], tracker_id@, state) by {
                            if j < pre.len() { assert(next[j] == pre[j]); }
                        }
                    },
                }
            }
            i = i + 1;
        }
        assert(self.steps@.subrange(0, i as int) == self.steps@);
        match best {
            Some(b) => {
                proof { lemma_latest_step_unique(self.steps@, tracker_id@, state, b as int); }
                Some(&self.steps[b])
            },
            None => {
                assert(!exists|k: int| is_latest_step(self.steps@, tracker_id@, state, k));
                None
            },
        }
    }

    /// The latest step of tracker `tracker_id`, which gives its current state.
    pub fn get_last_tracker_step(&self, tracker_id: &String) -> (r: Option<&TrackerStep>)
        ensures
            match r {
                Some(s) => latest_step(self@.1, tracker_id@, None) == Some(*s),
                None => latest_step(self@.1, tracker_id@, None) is None,
            },
    {
        self.latest_step_where(tracker_id, None)
    }

    /// The latest step of tracker `tracker_id` in `status`, used to recover an
    /// earlier answer.
    pub fn get_step_by_status(&self, tracker_id: &String, status: FlowStatus) -> (r: Option<&TrackerStep>)
        ensures
            match r {
                Some(s) => latest_step(self@.1, tracker_id@, Some(status)) == Some(*s),
                None => latest_step(self@.1, tracker_id@, Some(status)) is None,
            },
    {
        self.latest_step_where(tracker_id, Some(status))
    }

    /// Whether a step of tracker `tracker_id` records inbound event
    /// `reference`.
    pub fn records_event(&self, tracker_id: &String, reference: &String) -> (r: bool)
        ensures
            r == has_event(self@.1, tracker_id@, reference@),
    {
        let mut i: usize = 0;
        while i < self.steps.len()
            invariant
                i <= self.steps@.len(),
                forall|j: int| 0 <= j < i ==> !(#[trigger] self.steps@[j].tracker_id@ == tracker_id@ && self.steps@[j].message_reference@ == reference@),
            decreases self.steps@.len() - i,
        {
            if self.steps[i].tracker_id == *tracker_id && self.steps[i].message_reference == *reference {
                return true;
            }
            i = i + 1;
        }
        false
    }

    /// Appends a step, unless a step of its tracker already records its
    /// inbound event: one event never makes two transitions.
    pub fn create_new_step(&mut self, step: TrackerStep) -> (r: Result<String, StoreError>)
        ensures
            final(self)@.1 == appended(old(self)@.1, step),
            final(self)@.0 == old(self)@.0,
            r is Err <==> has_event(old(self)@.1, step.tracker_id@, step.message_reference@),
            r matches Err(e) ==> e == StoreError::DuplicateEvent,
            r matches Ok(key) ==> key@ == "whatsapp-workflow:"@ + step.id@,
    {
        if self.records_event(&step.tracker_id, &step.message_reference) {
            return Err(StoreError::DuplicateEvent);
        }
        let key = step_key(&step.id);
        self.steps.push(step);
        Ok(key)
    }
}

/// Appending a step for an inbound event that a stored step of the same
/// tracker already records leaves the history as it was: replaying an event
/// makes no second transition.
pub proof fn replayed_event_appends_nothing(ss: Seq<TrackerStep>, first: TrackerStep, replay: TrackerStep)
    requires
        replay.tracker_id@ == first.tracker_id@,
        replay.message_reference@ == first.message_reference@,
    ensures
        appended(appended(ss, first), replay) == appended(ss, first),
{
    let once = appended(ss, first);
    if !has_event(ss, first.tracker_id@, first.message_reference@) {
        assert(once[ss.len() as int] == first);
        assert(has_event(once, replay.tracker_id@, replay.message_reference@));
    } else {
        let j = choose|j: int| 0 <= j < ss.len() && #[trigger] ss[j].tracker_id@ == first.tracker_id@ && ss[j].message_reference@ == first.message_reference@;
        assert(once[j].tracker_id@ == replay.tracker_id@);
    }
}

// ---------------------------------------------------------------------------
// Record layout of the durable store

/// The key of a tracker record.
pub fn tracker_key(tracker_id: &String) -> (r: String)
    ensures
        r@ == "whatsapp-request:"@ + tracker_id@,
{
    let mut k = String::from_str("whatsapp-request:");
    k.append(tracker_id.as_str());
    k
}

/// The key of a step record.
pub fn step_key(step_id: &String) -> (r: String)
    ensures
        r@ == "whatsapp-workflow:"@ + step_id@,
{
    let mut k = String::from_str("whatsapp-workflow:");
    k.append(step_id.as_str());
    k
}

/// The key of the record holding a phone number's selected mode.
pub fn mode_key(phone: &String) -> (r: String)
    ensures
        r@ == "selected-mode:"@ + phone@,
{
    let mut k = String::from_str("selected-mode:");
    k.append(phone.as_str());
    k
}

/// The key under which an inbound event is kept.
pub fn message_key(phone: &String, message_id: &String) -> (r: String)
    ensures
        r@ == "incoming-messages:"@ + phone@ + ":"@ + message_id@,
{
    let mut k = String::from_str("incoming-messages:");
    k.append(phone.as_str());
    k.append(":");
    k.append(message_id.as_str());
    k
}

/// The channel on which continuation events of a phone number are
/// published.
pub fn notification_channel(phone: &String) -> (r: String)
    ensures
        r@ == "whatsapp-notification:"@ + phone@,
{
    let mut k = String::from_str("whatsapp-notification:");
    k.append(phone.as_str());
    k
}

/// The mode value that clears a phone number's mode selection.
pub open spec fn reset_mode_value() -> Seq<char> {
    "100"@
}

/// The write that clears a phone number's mode selection: the key, the
/// field and the value.
pub fn reset_user_mode(phone: &String) -> (r: (String, String, String))
    ensures
        r.0@ == "selected-mode:"@ + phone@,
        r.1@ == "mode"@,
        r.2@ == reset_mode_value(),
{
    (mode_key(phone), String::from_str("mode"), String::from_str("100"))
}

/// Reads a stored mode selection: a decimal number below 65536.
pub fn get_user_mode(raw: &String) -> (r: Option<u16>)
    ensures
        match r {
            Some(m) => is_decimal(raw@) && decimal_value(raw@) == m as nat,
            None => !is_decimal(raw@) || decimal_value(raw@) >= 65536,
        },
{
    match parse_capped(raw.as_str(), 65536) {
        Some(v) => if v < 65536 { Some(v as u16) } else { None },
        None => None,
    }
}

/// Whether a store error's text says that the reply was empty.
pub fn is_nil(error_text: &String) -> (r: bool)
    ensures
        r == contains_seq(error_text@, "response was nil"@),
{
    contains_text(error_text.as_str(), "response was nil")
}

/// The value paired with `name` among the first `k` name/value pairs of a
/// flat reply; a later pair wins.
pub open spec fn pair_lookup(fields: Seq<String>, name: Seq<char>, k: nat) -> Option<Seq<char>>
    decreases k,
{
    if k == 0 || fields.len() < 2 * k {
        None
    } else if fields[2 * k - 2]@ == name {
        Some(fields[2 * k - 1]@)
    } else {
        pair_lookup(fields, name, (k - 1) as nat)
    }
}

/// The value of field `name` in a flat reply of alternating names and
/// values.
pub open spec fn field_value(fields: Seq<String>, name: Seq<char>) -> Option<Seq<char>> {
    pair_lookup(fields, name, fields.len() / 2)
}

/// Finds field `name` in a flat reply of alternating names and values.
pub fn find_field<'a>(fields: &'a Vec<String>, name: &str) -> (r: Option<&'a String>)
    ensures
        match r {
            Some(v) => field_value(fields@, name@) == Some(v@),
            None => field_value(fields@, name@) is None,
        },
{
    let target = String::from_str(name);
    let n = fields.len();
    let pairs = n / 2;
    let mut found: Option<usize> = None;
    let mut k: usize = 0;
    let mut at: usize = 0;
    while k < pairs
        invariant
            n == fields@.len(),
            pairs == fields@.len() / 2,
            k <= pairs,
            at == 2 * k,
            target@ == name@,
            match found {
                Some(v) => v < fields@.len() && pair_lookup(fields@, name@, k as nat) == Some(fields@[v as int]@),
                None => pair_lookup(fields@, name@, k as nat) is None,
            },
        decreases pairs - k,
    {
        assert(at + 1 < fields@.len());
        if fields[at] == target {
            found = Some(at + 1);
        }
        k = k + 1;
        at = at + 2;
    }
    match found {
        Some(v) => Some(&fields[v]),
        None => None,
    }
}

/// Timestamps at or above this are refused when read back.
pub const TIMESTAMP_LIMIT: u64 = 1_000_000_000_000_000;

/// A stored field holding a timestamp in milliseconds.
pub open spec fn timestamp_text(t: Seq<char>, v: u64) -> bool {
    is_decimal(t) && decimal_value(t) < TIMESTAMP_LIMIT && decimal_value(t) == v as nat
}

fn read_timestamp(t: &String) -> (r: Option<u64>)
    ensures
        match r {
            Some(v) => timestamp_text(t@, v),
            None => !is_decimal(t@) || decimal_value(t@) >= TIMESTAMP_LIMIT,
        },
{
    match parse_capped(t.as_str(), TIMESTAMP_LIMIT) {
        Some(v) => if v < TIMESTAMP_LIMIT { Some(v) } else { None },
        None => None,
    }
}

/// A tracker record as the store's search returns it: its key, and its
/// fields `phone_number` and `timestamp`.
pub open spec fn tracker_reply_ok(key: Seq<char>, fields: Seq<String>) -> bool {
    &&& field_value(fields, "phone_number"@) is Some
    &&& field_value(fields, "timestamp"@) matches Some(t) && is_decimal(t) && decimal_value(t) < TIMESTAMP_LIMIT
}

/// Reads a tracker from the store's reply: the record key (its id behind
/// the `whatsapp-request:` prefix) and its fields. `None` where a field is
/// missing or the timestamp is no number.
pub fn get_last_tracker(key: &String, fields: &Vec<String>) -> (r: Option<RequestTracker>)
    ensures
        r is Some <==> tracker_reply_ok(key@, fields@),
        r matches Some(t) ==> {
            &&& field_value(fields@, "phone_number"@) == Some(t.phone_number@)
            &&& field_value(fields@, "timestamp"@) matches Some(ts) && timestamp_text(ts, t.timestamp)
            &&& if is_prefix("whatsapp-request:"@, key@) {
                t.id@ == key@.subrange(17, key@.len() as int)
            } else {
                t.id@ == key@
            }
        },
{
    let phone = match find_field(fields, "phone_number") {
        Some(p) => p.clone(),
        None => { return None; },
    };
    let timestamp = match find_field(fields, "timestamp") {
        Some(t) => match read_timestamp(t) {
            Some(v) => v,
            None => { return None; },
        },
        None => { return None; },
    };
    proof { reveal_strlit("whatsapp-request:"); }
    let id = if starts_with(key.as_str(), "whatsapp-request:") {
        let n = key.as_str().unicode_len();
        String::from_str(key.as_str().substring_char(17, n))
    } else {
        key.clone()
    };
    Some(RequestTracker { phone_number: phone, timestamp, id })
}

/// A step record's fields as the store's search returns them.
pub open spec fn step_reply_ok(fields: Seq<String>) -> bool {
    &&& field_value(fields, "tracker_id"@) is Some
    &&& field_value(fields, "timestamp"@) matches Some(t) && is_decimal(t) && decimal_value(t) < TIMESTAMP_LIMIT
    &&& field_value(fields, "status"@) matches Some(st) && is_decimal(st) && state_at(decimal_value(st)) is Some
    &&& field_value(fields, "value"@) is Some
    &&& field_value(fields, "attached_files"@) is Some
    &&& field_value(fields, "message_reference"@) is Some
}

impl TrackerStep {
    /// Reads a step from the store's reply: the record key (its id behind
    /// the `whatsapp-workflow:` prefix) and its fields. `None` where a field
    /// is missing, the timestamp is no number or the status names no state.
    pub fn parse_from_redis(key: &String, register: &Vec<String>) -> (r: Option<TrackerStep>)
        ensures
            r is Some <==> step_reply_ok(register@),
            r matches Some(s) ==> {
                &&& if is_prefix("whatsapp-workflow:"@, key@) {
                    s.id@ == key@.subrange(18, key@.len() as int)
                } else {
                    s.id@ == key@
                }
                &&& field_value(register@, "tracker_id"@) == Some(s.tracker_id@)
                &&& field_value(register@, "timestamp"@) matches Some(t) && timestamp_text(t, s.timestamp)
                &&& field_value(register@, "status"@) matches Some(st) && state_at(decimal_value(st)) == Some(s.status)
                &&& field_value(register@, "value"@) == Some(s.value@)
                &&& field_value(register@, "attached_files"@) == Some(s.attached_files@)
                &&& field_value(register@, "message_reference"@) == Some(s.message_reference@)
            },
    {
        let tracker_id = match find_field(register, "tracker_id") {
            Some(v) => v.clone(),
            None => { return None; },
        };
        let timestamp = match find_field(register, "timestamp") {
            Some(t) => match read_timestamp(t) {
                Some(v) => v,
                None => { return None; },
            },
            None => { return None; },
        };
        let status = match find_field(register, "status") {
            Some(st) => match FlowStatus::get_from_value(st) {
                Some(s) => s,
                None => { return None; },
            },
            None => { return None; },
        };
        let value = match find_field(register, "value") {
            Some(v) => v.clone(),
            None => { return None; },
        };
        let attached_files = match find_field(register, "attached_files") {
            Some(v) => v.clone(),
            None => { return None; },
        };
        let message_reference = match find_field(register, "message_reference") {
            Some(v) => v.clone(),
            None => { return None; },
        };
        proof { reveal_strlit("whatsapp-workflow:"); }
        let id = if starts_with(key.as_str(), "whatsapp-workflow:") {
            let n = key.as_str().unicode_len();
            String::from_str(key.as_str().substring_char(18, n))
        } else {
            key.clone()
        };
        Some(TrackerStep { tracker_id, timestamp, id, status, value, attached_files, message_reference })
    }
}

/// The flat field list a step record is written as.
pub open spec fn step_record(s: TrackerStep) -> Seq<Seq<char>> {
    seq![
        "tracker_id"@, s.tracker_id@,
        "timestamp"@, decimal(s.timestamp as nat),
        "status"@, decimal(ordinal(s.status)),
        "value"@, s.value@,
        "attached_files"@, s.attached_files@,
        "message_reference"@, s.message_reference@,
    ]
}

/// The flat field list a tracker record is written as.
pub open spec fn tracker_record(t: RequestTracker) -> Seq<Seq<char>> {
    seq!["phone_number"@, t.phone_number@, "timestamp"@, decimal(t.timestamp as nat)]
}

fn push_field(fields: &mut Vec<String>, name: &str, value: String)
    ensures
        string_views(final(fields)@) == string_views(old(fields)@).push(name@).push(value@),
{
    let ghost before = fields@;
    fields.push(String::from_str(name));
    fields.push(value);
    assert(string_views(fields@) == string_views(before).push(name@).push(value@));
}

impl TrackerStep {
    /// The fields this step is stored with.
    pub fn to_fields(&self) -> (r: Vec<String>)
        ensures
            string_views(r@) == step_record(*self),
    {
        let mut fields: Vec<String> = Vec::new();
        assert(string_views(fields@) == Seq::<Seq<char>>::empty());
        push_field(&mut fields, "tracker_id", self.tracker_id.clone());
        push_field(&mut fields, "timestamp", decimal_string(self.timestamp));
        push_field(&mut fields, "status", self.status.to_value());
        push_field(&mut fields, "value", self.value.clone());
        push_field(&mut fields, "attached_files", self.attached_files.clone());
        push_field(&mut fields, "message_reference", self.message_reference.clone());
        assert(string_views(fields@) =~= step_record(*self));
        fields
    }
}

impl RequestTracker {
    /// The fields this tracker is stored with.
    pub fn to_fields(&self) -> (r: Vec<String>)
        ensures
            string_views(r@) == tracker_record(*self),
    {
        let mut fields: Vec<String> = Vec::new();
        assert(string_views(fields@) == Seq::<Seq<char>>::empty());
        push_field(&mut fields, "phone_number", self.phone_number.clone());
        push_field(&mut fields, "timestamp", decimal_string(self.timestamp));
        assert(string_views(fields@) =~= tracker_record(*self));
        fields
    }
}

proof fn lemma_field_names_distinct()
    ensures
        "tracker_id"@.len() == 10,
        "timestamp"@.len() == 9,
        "status"@.len() == 6,
        "value"@.len() == 5,
        "attached_files"@.len() == 14,
        "message_reference"@.len() == 17,
        "phone_number"@.len() == 12,
{
    reveal_strlit("tracker_id");
    reveal_strlit("timestamp");
    reveal_strlit("status");
    reveal_strlit("value");
    reveal_strlit("attached_files");
    reveal_strlit("message_reference");
    reveal_strlit("phone_number");
}

/// A step written as its record reads back field by field: every field is
/// found with the value written, the timestamp (below the read limit) as
/// its number and the status as its state.
pub proof fn step_record_round_trip(s: TrackerStep, fields: Seq<String>)
    requires
        string_views(fields) == step_record(s),
        s.timestamp < TIMESTAMP_LIMIT,
    ensures
        step_reply_ok(fields),
        field_value(fields, "tracker_id"@) == Some(s.tracker_id@),
        field_value(fields, "timestamp"@) matches Some(t) && timestamp_text(t, s.timestamp),
        field_value(fields, "status"@) matches Some(st) && state_at(decimal_value(st)) == Some(s.status),
        field_value(fields, "value"@) == Some(s.value@),
        field_value(fields, "attached_files"@) == Some(s.attached_files@),
        field_value(fields, "message_reference"@) == Some(s.message_reference@),
{
    lemma_field_names_distinct();
    lemma_decimal_round_trip(s.timestamp as nat);
    lemma_decimal_round_trip(ordinal(s.status));
    assert(step_record(s).len() == 12);
    assert(string_views(fields).len() == fields.len());
    assert(fields.len() == 12);
    assert forall|i: int| 0 <= i < 12 implies #[trigger] fields[i]@ == step_record(s)[i] by {
        assert(string_views(fields)[i] == fields[i]@);
    }
    reveal_with_fuel(pair_lookup, 7);
}

/// A tracker written as its record, under its key, reads back as itself.
pub proof fn tracker_record_round_trip(t: RequestTracker, key: Seq<char>, fields: Seq<String>)
    requires
        key == "whatsapp-request:"@ + t.id@,
        string_views(fields) == tracker_record(t),
        t.timestamp < TIMESTAMP_LIMIT,
    ensures
        tracker_reply_ok(key, fields),
        field_value(fields, "phone_number"@) == Some(t.phone_number@),
        field_value(fields, "timestamp"@) matches Some(ts) && timestamp_text(ts, t.timestamp),
        is_prefix("whatsapp-request:"@, key),
        key.subrange(17, key.len() as int) == t.id@,
{
    lemma_field_names_distinct();
    lemma_decimal_round_trip(t.timestamp as nat);
    reveal_strlit("whatsapp-request:");
    assert(tracker_record(t).len() == 4);
    assert(string_views(fields).len() == fields.len());
    assert(fields.len() == 4);
    assert forall|i: int| 0 <= i < 4 implies #[trigger] fields[i]@ == tracker_record(t)[i] by {
        assert(string_views(fields)[i] == fields[i]@);
    }
    reveal_with_fuel(pair_lookup, 3);
    assert(key.subrange(0, 17) =~= "whatsapp-request:"@);
    assert(key.subrange(17, key.len() as int) =~= t.id@);
}

} // verus!
