//! The validation engine: what shape an inbound message has, what text it
//! carries, and whether that text passes the rule of the state it would
//! enter (a pattern, or the vehicle identification check).

use vstd::prelude::*;
use crate::flow::{MessageType, StepDefinition, ValidationRule, opt_view, rule_view};
use crate::structs::{Event, Message};
use crate::text::{digit_char, is_digit, digit_value, text_is};

verus! {

/// Why a message may not enter a state.
#[derive(PartialEq, Eq, Structural, Clone, Copy, Debug)]
pub enum ValidationError {
    /// The event holds no message of a shape the engine reads.
    Unreadable,
    /// The message's shape is not the one the state requires.
    KindMismatch,
    /// The content does not match the state's pattern.
    RuleMismatch,
    /// The state's pattern is not a valid regular expression.
    InvalidRule,
    /// The content is neither a valid vehicle identification number nor a
    /// license plate.
    ChecksumMismatch,
}

// ---------------------------------------------------------------------------
// Vehicle identification

/// The value of a character in a vehicle identification number (ISO 3779);
/// letters count alike in either case; I, O and Q have none.
pub open spec fn transliterate(c: char) -> Option<nat> {
    if '0' <= c && c <= '9' {
        Some(digit_value(c))
    } else if 'a' <= c && c <= 'z' {
        transliterate_upper(((c as int) - 32) as char)
    } else {
        transliterate_upper(c)
    }
}

pub open spec fn transliterate_upper(c: char) -> Option<nat> {
    if 'A' <= c && c <= 'H' {
        Some((c as int - 'A' as int + 1) as nat)
    } else if 'J' <= c && c <= 'N' {
        Some((c as int - 'J' as int + 1) as nat)
    } else if c == 'P' {
        Some(7)
    } else if c == 'R' {
        Some(9)
    } else if 'S' <= c && c <= 'Z' {
        Some((c as int - 'S' as int + 2) as nat)
    } else {
        None
    }
}

/// The weight of each position of a vehicle identification number.
pub open spec fn vin_weight(i: int) -> nat {
    if 0 <= i && i <= 6 {
        (8 - i) as nat
    } else if i == 7 {
        10
    } else if i == 8 {
        0
    } else if 9 <= i && i <= 16 {
        (18 - i) as nat
    } else {
        0
    }
}

/// The weighted sum of the first `n` positions.
pub open spec fn vin_sum(s: Seq<char>, n: nat) -> int
    decreases n,
{
    if n == 0 {
        0
    } else {
        vin_sum(s, (n - 1) as nat) + match transliterate(s[n - 1]) {
            Some(v) => v * vin_weight(n - 1),
            None => 0,
        }
    }
}

/// The character a check value demands at the check position.
pub open spec fn check_char(r: int) -> char {
    if r == 10 { 'X' } else { digit_char(r as nat) }
}

/// A vehicle identification number with a correct check digit: 17
/// characters, each with a value, and at position 8 the weighted sum mod 11
/// (`X` for 10).
pub open spec fn vin_valid(s: Seq<char>) -> bool {
    &&& s.len() == 17
    &&& forall|i: int| 0 <= i < 17 ==> (#[trigger] transliterate(s[i])) is Some
    &&& s[8] == check_char(vin_sum(s, 17) % 11)
}

pub open spec fn is_plate_char(c: char) -> bool {
    ('A' <= c && c <= 'Z') || is_digit(c)
}

/// A license plate: six capital letters or digits.
pub open spec fn plate_valid(s: Seq<char>) -> bool {
    s.len() == 6 && forall|i: int| 0 <= i < 6 ==> is_plate_char(#[trigger] s[i])
}

/// What the identification state accepts.
pub open spec fn identification_valid(s: Seq<char>) -> bool {
    vin_valid(s) || plate_valid(s)
}

fn transliterate_char(c: char) -> (r: Option<u64>)
    ensures
        r matches Some(v) ==> transliterate(c) == Some(v as nat),
        r is None ==> transliterate(c) is None,
        r matches Some(v) ==> v <= 9,
{
    let u: char = if 'a' <= c && c <= 'z' {
        let code: u32 = (c as u32) - 32;
        assert(code < 0xD800);
        char_from_ascii(code)
    } else {
        c
    };
    if '0' <= c && c <= '9' {
        Some((c as u64) - ('0' as u64))
    } else if 'A' <= u && u <= 'H' {
        Some((u as u64) - ('A' as u64) + 1)
    } else if 'J' <= u && u <= 'N' {
        Some((u as u64) - ('J' as u64) + 1)
    } else if u == 'P' {
        Some(7)
    } else if u == 'R' {
        Some(9)
    } else if 'S' <= u && u <= 'Z' {
        Some((u as u64) - ('S' as u64) + 2)
    } else {
        None
    }
}

fn char_from_ascii(code: u32) -> (r: char)
    requires
        97 - 32 <= code <= 122 - 32,
    ensures
        r as int == code as int,
{
    if code == 65 { 'A' } else if code == 66 { 'B' } else if code == 67 { 'C' }
    else if code == 68 { 'D' } else if code == 69 { 'E' } else if code == 70 { 'F' }
    else if code == 71 { 'G' } else if code == 72 { 'H' } else if code == 73 { 'I' }
    else if code == 74 { 'J' } else if code == 75 { 'K' } else if code == 76 { 'L' }
    else if code == 77 { 'M' } else if code == 78 { 'N' } else if code == 79 { 'O' }
    else if code == 80 { 'P' } else if code == 81 { 'Q' } else if code == 82 { 'R' }
    else if code == 83 { 'S' } else if code == 84 { 'T' } else if code == 85 { 'U' }
    else if code == 86 { 'V' } else if code == 87 { 'W' } else if code == 88 { 'X' }
    else if code == 89 { 'Y' } else { 'Z' }
}

fn weight_at(i: usize) -> (r: u64)
    ensures
        r as nat == vin_weight(i as int),
        r <= 10,
{
    if i <= 6 {
        8 - i as u64
    } else if i == 7 {
        10
    } else if i == 8 {
        0
    } else if i <= 16 {
        18 - i as u64
    } else {
        0
    }
}

/// Whether `vin` is a vehicle identification number with a correct check
/// digit (17 characters; no license plate).
pub fn validate_vin_checksum(vin: &str) -> (r: bool)
    ensures
        r == vin_valid(vin@),
{
    let n = vin.unicode_len();
    if n != 17 {
        return false;
    }
    let mut sum: u64 = 0;
    let mut i: usize = 0;
    while i < 17
        invariant
            n == 17,
            vin@.len() == 17,
            i <= 17,
            sum as int == vin_sum(vin@, i as nat),
            sum <= 90 * i,
            forall|k: int| 0 <= k < i ==> (#[trigger] transliterate(vin@[k])) is Some,
        decreases 17 - i,
    {
        let c = vin.get_char(i);
        match transliterate_char(c) {
            Some(v) => {
                let w = weight_at(i);
                assert(v * w <= 90) by (nonlinear_arith)
                    requires
                        v <= 9,
                        w <= 10,
                ;
                sum = sum + v * w;
            },
            None => {
                return false;
            },
        }
        i = i + 1;
    }
    let check = sum % 11;
    let c8 = vin.get_char(8);
    if check == 10 {
        c8 == 'X'
    } else {
        let expected: char = digit_to_char(check);
        c8 == expected
    }
}

fn digit_to_char(d: u64) -> (r: char)
    requires
        d < 10,
    ensures
        r == digit_char(d as nat),
{
    if d == 0 { '0' } else if d == 1 { '1' } else if d == 2 { '2' } else if d == 3 { '3' }
    else if d == 4 { '4' } else if d == 5 { '5' } else if d == 6 { '6' } else if d == 7 { '7' }
    else if d == 8 { '8' } else { '9' }
}

/// Whether `plate` is a license plate of six capital letters or digits.
pub fn validate_plate(plate: &str) -> (r: bool)
    ensures
        r == plate_valid(plate@),
{
    let n = plate.unicode_len();
    if n != 6 {
        return false;
    }
    let mut i: usize = 0;
    while i < 6
        invariant
            n == 6,
            plate@.len() == 6,
            i <= 6,
            forall|k: int| 0 <= k < i ==> is_plate_char(#[trigger] plate@[k]),
        decreases 6 - i,
    {
        let c = plate.get_char(i);
        if !(('A' <= c && c <= 'Z') || ('0' <= c && c <= '9')) {
            return false;
        }
        i = i + 1;
    }
    true
}

/// Whether `vin` identifies a vehicle: a vehicle identification number with
/// a correct check digit, or a six-character license plate, which has no
/// check digit.
pub fn validate_vin(vin: &str) -> (r: bool)
    ensures
        r == identification_valid(vin@),
{
    validate_vin_checksum(vin) || validate_plate(vin)
}

pub open spec fn char_value(c: char) -> int {
    match transliterate(c) {
        Some(v) => v as int,
        None => 0,
    }
}

proof fn lemma_vin_sum_update(s: Seq<char>, i: int, c: char, n: nat)
    requires
        0 <= i < s.len(),
        n <= s.len(),
    ensures
        vin_sum(s.update(i, c), n) == vin_sum(s, n) + if i < n {
            (char_value(c) - char_value(s[i])) * vin_weight(i)
        } else {
            0
        },
    decreases n,
{
    if n > 0 {
        lemma_vin_sum_update(s, i, c, (n - 1) as nat);
        let t = s.update(i, c);
        let k = n - 1;
        let w = vin_weight(k) as int;
        assert(vin_sum(t, n) == vin_sum(t, (n - 1) as nat) + char_value(t[k]) * w);
        assert(vin_sum(s, n) == vin_sum(s, (n - 1) as nat) + char_value(s[k]) * w);
        if k == i {
            assert(t[i] == c);
            let a = char_value(c);
            let b = char_value(s[i]);
            assert(a * w - b * w == (a - b) * w) by (nonlinear_arith);
        } else {
            assert(t[k] == s[k]);
        }
    }
}

proof fn lemma_check_char_injective(a: int, b: int)
    requires
        0 <= a <= 10,
        0 <= b <= 10,
        check_char(a) == check_char(b),
    ensures
        a == b,
{
}

proof fn lemma_weighted_change_detected(total: int, d: int, w: int)
    requires
        total >= 0,
        total + d * w >= 0,
        -9 <= d <= 9,
        1 <= w <= 10,
        (total + d * w) % 11 == total % 11,
    ensures
        d == 0,
{
    if w == 1 { assert(d * w == d); }
    else if w == 2 { assert(d * w == 2 * d); }
    else if w == 3 { assert(d * w == 3 * d); }
    else if w == 4 { assert(d * w == 4 * d); }
    else if w == 5 { assert(d * w == 5 * d); }
    else if w == 6 { assert(d * w == 6 * d); }
    else if w == 7 { assert(d * w == 7 * d); }
    else if w == 8 { assert(d * w == 8 * d); }
    else if w == 9 { assert(d * w == 9 * d); }
    else { assert(d * w == 10 * d); }
}

proof fn lemma_vin_sum_nonneg(s: Seq<char>, n: nat)
    ensures
        vin_sum(s, n) >= 0,
    decreases n,
{
    if n > 0 {
        lemma_vin_sum_nonneg(s, (n - 1) as nat);
    }
}

/// Changing one character of a valid vehicle identification number leaves
/// it valid only where the new character has the value of the old one (a
/// letter for the same digit, or the other case of the same letter); at the
/// check position, only the same character does.
pub proof fn vin_single_change_detected(s: Seq<char>, i: int, c: char)
    requires
        vin_valid(s),
        0 <= i < 17,
        vin_valid(s.update(i, c)),
    ensures
        i == 8 ==> c == s[8],
        i != 8 ==> transliterate(c) == transliterate(s[i]),
{
    let t = s.update(i, c);
    lemma_vin_sum_update(s, i, c, 17);
    lemma_vin_sum_nonneg(s, 17);
    lemma_vin_sum_nonneg(t, 17);
    assert(t[i] == c);
    assert(transliterate(t[i]) is Some);
    assert(transliterate(s[i]) is Some);
    if i == 8 {
        assert(vin_weight(8) == 0);
        assert(vin_sum(t, 17) == vin_sum(s, 17));
    } else {
        assert(t[8] == s[8]);
        lemma_check_char_injective(vin_sum(s, 17) % 11, vin_sum(t, 17) % 11);
        let d = char_value(c) - char_value(s[i]);
        assert(1 <= vin_weight(i) <= 10);
        lemma_weighted_change_detected(vin_sum(s, 17), d, vin_weight(i) as int);
    }
}

/// An identifier of any length but 17 (a vehicle identification number) or
/// 6 (a license plate) is refused.
pub proof fn identification_length_required(s: Seq<char>)
    requires
        s.len() != 17,
        s.len() != 6,
    ensures
        !identification_valid(s),
{
}

// ---------------------------------------------------------------------------
// Inbound messages

/// The first message of a webhook delivery, if it holds one.
pub open spec fn first_message(e: Event) -> Option<Message> {
    if e.entry@.len() > 0 && e.entry@[0].changes@.len() > 0 {
        match e.entry@[0].changes@[0].value.messages {
            Some(ms) => if ms@.len() > 0 { Some(ms@[0]) } else { None },
            None => None,
        }
    } else {
        None
    }
}

/// The shape of a message, read from its content rather than told by the
/// caller.
pub open spec fn classify(m: Message) -> Option<MessageType> {
    if m.message_type@ == "text"@ {
        Some(MessageType::PlainText)
    } else if m.message_type@ == "interactive"@ {
        match m.interactive {
            Some(i) => if i.button_reply is Some {
                Some(MessageType::ButtonSelection)
            } else if i.list_reply is Some {
                Some(MessageType::ListSelection)
            } else {
                None
            },
            None => None,
        }
    } else if m.message_type@ == "image"@ {
        Some(MessageType::PlainTextAndImage)
    } else {
        None
    }
}

/// The text a message carries: its body, the id of the selected choice, or
/// the caption of its image.
pub open spec fn content_of(m: Message) -> Option<Seq<char>> {
    if m.message_type@ == "text"@ {
        match m.text {
            Some(t) => Some(t.body@),
            None => None,
        }
    } else if m.message_type@ == "interactive"@ {
        match m.interactive {
            Some(i) => match i.button_reply {
                Some(b) => Some(b.id@),
                None => match i.list_reply {
                    Some(l) => Some(l.id@),
                    None => None,
                },
            },
            None => None,
        }
    } else if m.message_type@ == "image"@ {
        match m.image {
            Some(img) => Some(img.caption@),
            None => None,
        }
    } else {
        None
    }
}

pub open spec fn event_kind(e: Event) -> Option<MessageType> {
    match first_message(e) {
        Some(m) => classify(m),
        None => None,
    }
}

pub open spec fn event_content(e: Event) -> Option<Seq<char>> {
    match first_message(e) {
        Some(m) => content_of(m),
        None => None,
    }
}

/// The provider's id of the image attached to the event's message, if any.
pub open spec fn event_image(e: Event) -> Option<Seq<char>> {
    match first_message(e) {
        Some(m) => match m.image {
            Some(img) => Some(img.id@),
            None => None,
        },
        None => None,
    }
}

fn first_message_of(event: &Event) -> (r: Option<&Message>)
    ensures
        match r {
            Some(m) => first_message(*event) == Some(*m),
            None => first_message(*event) is None,
        },
{
    if event.entry.len() == 0 {
        return None;
    }
    let entry = &event.entry[0];
    if entry.changes.len() == 0 {
        return None;
    }
    match &entry.changes[0].value.messages {
        Some(ms) => if ms.len() > 0 { Some(&ms[0]) } else { None },
        None => None,
    }
}

fn classify_message(m: &Message) -> (r: Option<MessageType>)
    ensures
        r == classify(*m),
{
    if text_is(&m.message_type, "text") {
        Some(MessageType::PlainText)
    } else if text_is(&m.message_type, "interactive") {
        match &m.interactive {
            Some(i) => if i.button_reply.is_some() {
                Some(MessageType::ButtonSelection)
            } else if i.list_reply.is_some() {
                Some(MessageType::ListSelection)
            } else {
                None
            },
            None => None,
        }
    } else if text_is(&m.message_type, "image") {
        Some(MessageType::PlainTextAndImage)
    } else {
        None
    }
}

fn message_content(m: &Message) -> (r: Option<String>)
    ensures
        opt_view(r) == content_of(*m),
{
    if text_is(&m.message_type, "text") {
        match &m.text {
            Some(t) => Some(t.body.clone()),
            None => None,
        }
    } else if text_is(&m.message_type, "interactive") {
        match &m.interactive {
            Some(i) => match &i.button_reply {
                Some(b) => Some(b.id.clone()),
                None => match &i.list_reply {
                    Some(l) => Some(l.id.clone()),
                    None => None,
                },
            },
            None => None,
        }
    } else if text_is(&m.message_type, "image") {
        match &m.image {
            Some(img) => Some(img.caption.clone()),
            None => None,
        }
    } else {
        None
    }
}

/// The shape of the event's message; `None` where it has none the engine
/// reads.
pub fn find_message_type(event: &Event) -> (r: Option<MessageType>)
    ensures
        r == event_kind(*event),
{
    match first_message_of(event) {
        Some(m) => classify_message(m),
        None => None,
    }
}

/// The text of the event's message: its body, the id of the selected
/// choice, or the caption of its image.
pub fn get_message_content(event: &Event) -> (r: Option<String>)
    ensures
        opt_view(r) == event_content(*event),
{
    match first_message_of(event) {
        Some(m) => message_content(m),
        None => None,
    }
}

/// The provider's id of the image attached to the event's message, if any.
pub fn get_image_id(event: &Event) -> (r: Option<String>)
    ensures
        opt_view(r) == event_image(*event),
{
    match first_message_of(event) {
        Some(m) => match &m.image {
            Some(img) => Some(img.id.clone()),
            None => None,
        },
        None => None,
    }
}

// ---------------------------------------------------------------------------
// Validation rules

/// Whether the regular expression `pattern` compiles with the default
/// settings.
pub uninterp spec fn regex_compiles(pattern: Seq<char>) -> bool;

/// Whether the regular expression `pattern` matches somewhere in `text`.
pub uninterp spec fn regex_match(pattern: Seq<char>, text: Seq<char>) -> bool;

/// Relies on `regex::Regex::new`, which fails on a pattern it cannot
/// compile (invalid syntax, or over its default size limit), and on
/// `regex::Regex::is_match`, which tells whether the compiled pattern
/// matches anywhere in the text.
#[verifier::external_body]
fn pattern_matches(pattern: &str, text: &str) -> (r: Option<bool>)
    ensures
        r is Some <==> regex_compiles(pattern@),
        r matches Some(b) ==> b == regex_match(pattern@, text@),
{
    match regex::Regex::new(pattern) {
        Ok(re) => Some(re.is_match(text)),
        Err(_) => None,
    }
}

/// The outcome of a rule (as its view), given what the pattern engine said
/// of the content (`None`: the pattern does not compile). Only a non-empty
/// pattern consults the engine.
pub open spec fn verdict_outcome(
    rule: (nat, Seq<char>),
    content: Seq<char>,
    verdict: Option<bool>,
) -> Result<(), ValidationError> {
    if rule.0 == 1 {
        if rule.1.len() == 0 {
            Ok(())
        } else {
            match verdict {
                None => Err(ValidationError::InvalidRule),
                Some(true) => Ok(()),
                Some(false) => Err(ValidationError::RuleMismatch),
            }
        }
    } else if rule.0 == 2 {
        if identification_valid(content) {
            Ok(())
        } else {
            Err(ValidationError::ChecksumMismatch)
        }
    } else {
        Ok(())
    }
}

/// The pattern engine's verdict on a content, as the rule sees it.
pub open spec fn pattern_verdict(pattern: Seq<char>, content: Seq<char>) -> Option<bool> {
    if regex_compiles(pattern) { Some(regex_match(pattern, content)) } else { None }
}

/// The outcome of the rule `rule` (as its view) on `content`.
pub open spec fn rule_outcome(rule: (nat, Seq<char>), content: Seq<char>) -> Result<(), ValidationError> {
    if rule.0 == 1 {
        verdict_outcome(rule, content, pattern_verdict(rule.1, content))
    } else {
        verdict_outcome(rule, content, None)
    }
}

/// Applies a rule to `content`, given the pattern engine's verdict on it.
pub fn apply_rule(rule: &ValidationRule, content: &str, verdict: Option<bool>) -> (r: Result<(), ValidationError>)
    ensures
        r == verdict_outcome(rule_view(*rule), content@, verdict),
{
    match rule {
        ValidationRule::Any => Ok(()),
        ValidationRule::Pattern(p) => {
            if p.as_str().unicode_len() == 0 {
                Ok(())
            } else {
                match verdict {
                    None => Err(ValidationError::InvalidRule),
                    Some(true) => Ok(()),
                    Some(false) => Err(ValidationError::RuleMismatch),
                }
            }
        },
        ValidationRule::VehicleId => {
            if validate_vin(content) {
                Ok(())
            } else {
                Err(ValidationError::ChecksumMismatch)
            }
        },
    }
}

/// What validating an event against a state's definition gives: the
/// event's content, or why the state may not be entered.
pub open spec fn validation_outcome(
    required: Option<MessageType>,
    rule: (nat, Seq<char>),
    e: Event,
) -> Result<Seq<char>, ValidationError> {
    match event_kind(e) {
        None => Err(ValidationError::Unreadable),
        Some(k) => if required is Some && required != Some(k) {
            Err(ValidationError::KindMismatch)
        } else {
            match event_content(e) {
                None => Err(ValidationError::Unreadable),
                Some(c) => match rule_outcome(rule, c) {
                    Ok(_) => Ok(c),
                    Err(err) => Err(err),
                },
            }
        },
    }
}

/// Checks an inbound event against the definition of the state it would
/// enter: its shape, then its content against the state's rule. Gives the
/// content on success.
pub fn validate(definition: &StepDefinition, event: &Event) -> (r: Result<String, ValidationError>)
    ensures
        match r {
            Ok(c) => validation_outcome(definition.required_response, rule_view(definition.validation_rule), *event) == Ok::<Seq<char>, ValidationError>(c@),
            Err(err) => validation_outcome(definition.required_response, rule_view(definition.validation_rule), *event) == Err::<Seq<char>, ValidationError>(err),
        },
{
    let kind = match find_message_type(event) {
        Some(k) => k,
        None => { return Err(ValidationError::Unreadable); },
    };
    match definition.required_response {
        Some(req) => if req != kind { return Err(ValidationError::KindMismatch); },
        None => {},
    }
    let content = match get_message_content(event) {
        Some(c) => c,
        None => { return Err(ValidationError::Unreadable); },
    };
    let verdict = match &definition.validation_rule {
        ValidationRule::Pattern(p) => if p.as_str().unicode_len() == 0 {
            None
        } else {
            pattern_matches(p.as_str(), content.as_str())
        },
        _ => None,
    };
    match apply_rule(&definition.validation_rule, content.as_str(), verdict) {
        Ok(()) => Ok(content),
        Err(err) => Err(err),
    }
}

} // verus!
