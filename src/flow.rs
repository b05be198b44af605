//! The flow definition table: every state of the conversation and what it
//! expects, validates, answers and lists.

use vstd::prelude::*;
use crate::text::{decimal, decimal_value, is_decimal, parse_capped};

verus! {

/// The states of a request conversation, in flow order.
#[derive(PartialEq, Eq, Structural, Clone, Copy, Debug)]
pub enum FlowStatus {
    FlowStarted,
    BrandModalSent,
    BrandSelected,
    ModelModalSent,
    ModelSelected,
    IdentificationRequestSent,
    IdentificationProvided,
    PartDescriptionRequested,
    PartDescriptionProvided,
    RequestAccepted,
    Cancelled,
}

/// The identifiers of the states, as used when a state names its successor.
#[derive(PartialEq, Eq, Structural, Clone, Copy, Debug)]
pub enum FlowStatusId {
    FlowStartedId,
    BrandModalSentId,
    BrandSelectedId,
    ModelModalSentId,
    ModelSelectedId,
    IdentificationRequestSentId,
    IdentificationProvidedId,
    PartDescriptionRequestedId,
    PartDescriptionProvidedId,
    RequestAcceptedId,
    CancelledId,
}

/// The shape of an inbound message.
#[derive(PartialEq, Eq, Structural, Clone, Copy, Debug)]
pub enum MessageType {
    PlainText,
    PlainTextAndImage,
    ListSelection,
    ButtonSelection,
    NoResponse,
}

/// Whether a state waits for the user or advances on its own.
#[derive(PartialEq, Eq, Structural, Clone, Copy, Debug)]
pub enum ResponseStatus {
    ExpectingResponse,
    SystemMessage,
}

/// The rule that an inbound message's content must pass.
pub enum ValidationRule {
    /// Anything is accepted.
    Any,
    /// The content must match this regular expression somewhere.
    Pattern(String),
    /// The content must be a vehicle identification number with a correct
    /// check digit, or a six-character license plate.
    VehicleId,
}

#[derive(PartialEq, Eq, Structural, Clone, Copy, Debug)]
pub enum TemplateKind {
    Text,
    List,
}

/// The skeleton of the message sent on entering a state. Where `echo_suffix`
/// is set, the body is followed by the captured value and then that suffix.
pub struct ResponseTemplate {
    pub kind: TemplateKind,
    pub body: String,
    pub echo_suffix: Option<String>,
    pub list_title: Option<String>,
}

/// Where the choices of a list come from: a catalog, whose key may carry the
/// answer given at an earlier state (`models:<brand>`).
pub struct DataSource {
    pub catalog: String,
    pub parameter_state: Option<FlowStatus>,
}

/// The contract of one state.
pub struct StepDefinition {
    pub required_response: Option<MessageType>,
    pub validation_rule: ValidationRule,
    pub next_step: Option<FlowStatus>,
    pub successful_response: ResponseTemplate,
    pub data_origin: Option<DataSource>,
}

/// The position of a state in the flow, from 1.
pub open spec fn ordinal(s: FlowStatus) -> nat {
    match s {
        FlowStatus::FlowStarted => 1,
        FlowStatus::BrandModalSent => 2,
        FlowStatus::BrandSelected => 3,
        FlowStatus::ModelModalSent => 4,
        FlowStatus::ModelSelected => 5,
        FlowStatus::IdentificationRequestSent => 6,
        FlowStatus::IdentificationProvided => 7,
        FlowStatus::PartDescriptionRequested => 8,
        FlowStatus::PartDescriptionProvided => 9,
        FlowStatus::RequestAccepted => 10,
        FlowStatus::Cancelled => 11,
    }
}

/// The state at a position, if any.
pub open spec fn state_at(n: nat) -> Option<FlowStatus> {
    if n == 1 { Some(FlowStatus::FlowStarted) }
    else if n == 2 { Some(FlowStatus::BrandModalSent) }
    else if n == 3 { Some(FlowStatus::BrandSelected) }
    else if n == 4 { Some(FlowStatus::ModelModalSent) }
    else if n == 5 { Some(FlowStatus::ModelSelected) }
    else if n == 6 { Some(FlowStatus::IdentificationRequestSent) }
    else if n == 7 { Some(FlowStatus::IdentificationProvided) }
    else if n == 8 { Some(FlowStatus::PartDescriptionRequested) }
    else if n == 9 { Some(FlowStatus::PartDescriptionProvided) }
    else if n == 10 { Some(FlowStatus::RequestAccepted) }
    else if n == 11 { Some(FlowStatus::Cancelled) }
    else { None }
}

pub open spec fn id_of(s: FlowStatus) -> FlowStatusId {
    match s {
        FlowStatus::FlowStarted => FlowStatusId::FlowStartedId,
        FlowStatus::BrandModalSent => FlowStatusId::BrandModalSentId,
        FlowStatus::BrandSelected => FlowStatusId::BrandSelectedId,
        FlowStatus::ModelModalSent => FlowStatusId::ModelModalSentId,
        FlowStatus::ModelSelected => FlowStatusId::ModelSelectedId,
        FlowStatus::IdentificationRequestSent => FlowStatusId::IdentificationRequestSentId,
        FlowStatus::IdentificationProvided => FlowStatusId::IdentificationProvidedId,
        FlowStatus::PartDescriptionRequested => FlowStatusId::PartDescriptionRequestedId,
        FlowStatus::PartDescriptionProvided => FlowStatusId::PartDescriptionProvidedId,
        FlowStatus::RequestAccepted => FlowStatusId::RequestAcceptedId,
        FlowStatus::Cancelled => FlowStatusId::CancelledId,
    }
}

/// The state that follows `s`; `None` for the terminal states.
pub open spec fn successor_of(s: FlowStatus) -> Option<FlowStatus> {
    match s {
        FlowStatus::RequestAccepted => None,
        FlowStatus::Cancelled => None,
        _ => state_at(ordinal(s) + 1),
    }
}

pub open spec fn is_terminal(s: FlowStatus) -> bool {
    successor_of(s) is None
}

/// The shape of message that entering `s` requires from the user; `None`
/// for states the system enters on its own.
pub open spec fn required_kind_of(s: FlowStatus) -> Option<MessageType> {
    match s {
        FlowStatus::BrandModalSent => Some(MessageType::PlainText),
        FlowStatus::BrandSelected => Some(MessageType::ListSelection),
        FlowStatus::ModelSelected => Some(MessageType::ListSelection),
        FlowStatus::IdentificationProvided => Some(MessageType::PlainText),
        FlowStatus::PartDescriptionProvided => Some(MessageType::PlainTextAndImage),
        _ => None,
    }
}

/// The keyword that starts the part search.
pub open spec fn start_keyword() -> Seq<char> {
    "hola"@
}

/// A rule as a tag and its pattern: 0 for any content, 1 for a pattern, 2
/// for the vehicle identification check.
pub open spec fn rule_view(r: ValidationRule) -> (nat, Seq<char>) {
    match r {
        ValidationRule::Any => (0, Seq::empty()),
        ValidationRule::Pattern(p) => (1, p@),
        ValidationRule::VehicleId => (2, Seq::empty()),
    }
}

/// The rule of `s` in the table.
pub open spec fn table_rule(s: FlowStatus) -> (nat, Seq<char>) {
    match s {
        FlowStatus::BrandModalSent => (1, start_keyword()),
        FlowStatus::IdentificationProvided => (2, Seq::empty()),
        _ => (0, Seq::empty()),
    }
}

pub open spec fn template_kind_of(s: FlowStatus) -> TemplateKind {
    match s {
        FlowStatus::BrandModalSent => TemplateKind::List,
        FlowStatus::ModelModalSent => TemplateKind::List,
        _ => TemplateKind::Text,
    }
}

pub open spec fn template_body_of(s: FlowStatus) -> Seq<char> {
    match s {
        FlowStatus::FlowStarted => "Escribe 'hola' para iniciar la solicitud."@,
        FlowStatus::BrandModalSent => "Selecciona la marca del vehiculo."@,
        FlowStatus::BrandSelected => "Has seleccionado "@,
        FlowStatus::ModelModalSent => "Selecciona el modelo correspondiente al vehiculo."@,
        FlowStatus::ModelSelected => "Has seleccionado "@,
        FlowStatus::IdentificationRequestSent => "Ingresa la patente o VIN del vehiculo a consultar."@,
        FlowStatus::IdentificationProvided => "El identificador provisto es valido."@,
        FlowStatus::PartDescriptionRequested => "Por favor, describa el repuesto que busca de la manera mas especifica posible, puede adjuntar una imagen en el mismo mensaje(solo una)."@,
        FlowStatus::PartDescriptionProvided => "Se recibio descripcion de repuesto."@,
        FlowStatus::RequestAccepted => "Se recibio la solicitud de repuesto exitosamente, lo estaremos contactando una vez encontremos el repuesto buscado."@,
        FlowStatus::Cancelled => "La solicitud expiro por inactividad. Escribe 'hola' para iniciar una nueva."@,
    }
}

/// The text after the echoed value, for states whose answer repeats it.
pub open spec fn echo_suffix_of(s: FlowStatus) -> Option<Seq<char>> {
    match s {
        FlowStatus::BrandSelected => Some("."@),
        FlowStatus::ModelSelected => Some("."@),
        _ => None,
    }
}

pub open spec fn list_title_of(s: FlowStatus) -> Option<Seq<char>> {
    match s {
        FlowStatus::BrandModalSent => Some("Marcas"@),
        FlowStatus::ModelModalSent => Some("Modelos"@),
        _ => None,
    }
}

/// The catalog that lists the choices of `s`, and the state whose answer
/// parameterizes it.
pub open spec fn source_of(s: FlowStatus) -> Option<(Seq<char>, Option<FlowStatus>)> {
    match s {
        FlowStatus::BrandModalSent => Some(("makes"@, None)),
        FlowStatus::ModelModalSent => Some(("models"@, Some(FlowStatus::BrandSelected))),
        _ => None,
    }
}

pub open spec fn opt_view(o: Option<String>) -> Option<Seq<char>> {
    match o {
        Some(t) => Some(t@),
        None => None,
    }
}

pub open spec fn source_view(d: Option<DataSource>) -> Option<(Seq<char>, Option<FlowStatus>)> {
    match d {
        Some(src) => Some((src.catalog@, src.parameter_state)),
        None => None,
    }
}

/// `d` is the definition of `s` in the table.
pub open spec fn defines(d: StepDefinition, s: FlowStatus) -> bool {
    &&& d.required_response == required_kind_of(s)
    &&& rule_view(d.validation_rule) == table_rule(s)
    &&& d.next_step == successor_of(s)
    &&& d.successful_response.kind == template_kind_of(s)
    &&& d.successful_response.body@ == template_body_of(s)
    &&& opt_view(d.successful_response.echo_suffix) == echo_suffix_of(s)
    &&& opt_view(d.successful_response.list_title) == list_title_of(s)
    &&& source_view(d.data_origin) == source_of(s)
}

fn text_template(body: &str) -> (r: ResponseTemplate)
    ensures
        r.kind == TemplateKind::Text,
        r.body@ == body@,
        r.echo_suffix is None,
        r.list_title is None,
{
    ResponseTemplate {
        kind: TemplateKind::Text,
        body: String::from_str(body),
        echo_suffix: None,
        list_title: None,
    }
}

fn echo_template(body: &str, suffix: &str) -> (r: ResponseTemplate)
    ensures
        r.kind == TemplateKind::Text,
        r.body@ == body@,
        opt_view(r.echo_suffix) == Some(suffix@),
        r.list_title is None,
{
    ResponseTemplate {
        kind: TemplateKind::Text,
        body: String::from_str(body),
        echo_suffix: Some(String::from_str(suffix)),
        list_title: None,
    }
}

fn list_template(body: &str, title: &str) -> (r: ResponseTemplate)
    ensures
        r.kind == TemplateKind::List,
        r.body@ == body@,
        r.echo_suffix is None,
        opt_view(r.list_title) == Some(title@),
{
    ResponseTemplate {
        kind: TemplateKind::List,
        body: String::from_str(body),
        echo_suffix: None,
        list_title: Some(String::from_str(title)),
    }
}

fn plain_step(
    required: Option<MessageType>,
    next: Option<FlowStatus>,
    template: ResponseTemplate,
) -> (r: StepDefinition)
    ensures
        r.required_response == required,
        rule_view(r.validation_rule) == (0nat, Seq::<char>::empty()),
        r.next_step == next,
        r.successful_response == template,
        r.data_origin is None,
{
    StepDefinition {
        required_response: required,
        validation_rule: ValidationRule::Any,
        next_step: next,
        successful_response: template,
        data_origin: None,
    }
}

impl FlowStatus {
    /// The position of this state in the flow, from 1.
    pub fn ordinal(&self) -> (r: u64)
        ensures
            r as nat == ordinal(*self),
    {
        match self {
            FlowStatus::FlowStarted => 1,
            FlowStatus::BrandModalSent => 2,
            FlowStatus::BrandSelected => 3,
            FlowStatus::ModelModalSent => 4,
            FlowStatus::ModelSelected => 5,
            FlowStatus::IdentificationRequestSent => 6,
            FlowStatus::IdentificationProvided => 7,
            FlowStatus::PartDescriptionRequested => 8,
            FlowStatus::PartDescriptionProvided => 9,
            FlowStatus::RequestAccepted => 10,
            FlowStatus::Cancelled => 11,
        }
    }

    /// The state at position `n`, or `None` outside the flow.
    pub fn from_ordinal(n: u64) -> (r: Option<FlowStatus>)
        ensures
            r == state_at(n as nat),
    {
        if n == 1 { Some(FlowStatus::FlowStarted) }
        else if n == 2 { Some(FlowStatus::BrandModalSent) }
        else if n == 3 { Some(FlowStatus::BrandSelected) }
        else if n == 4 { Some(FlowStatus::ModelModalSent) }
        else if n == 5 { Some(FlowStatus::ModelSelected) }
        else if n == 6 { Some(FlowStatus::IdentificationRequestSent) }
        else if n == 7 { Some(FlowStatus::IdentificationProvided) }
        else if n == 8 { Some(FlowStatus::PartDescriptionRequested) }
        else if n == 9 { Some(FlowStatus::PartDescriptionProvided) }
        else if n == 10 { Some(FlowStatus::RequestAccepted) }
        else if n == 11 { Some(FlowStatus::Cancelled) }
        else { None }
    }

    /// Reads a state from its position written in decimal, as the step
    /// records store it; `None` for anything else.
    pub fn get_from_value(i: &String) -> (r: Option<FlowStatus>)
        ensures
            r == (if is_decimal(i@) { state_at(decimal_value(i@)) } else { None }),
    {
        match parse_capped(i.as_str(), 1000) {
            Some(n) => FlowStatus::from_ordinal(n),
            None => None,
        }
    }

    /// The position of this state written in decimal.
    pub fn to_value(&self) -> (r: String)
        ensures
            r@ == decimal(ordinal(*self)),
    {
        crate::text::decimal_string(self.ordinal())
    }

    /// The identifier of this state.
    pub fn id(&self) -> (r: FlowStatusId)
        ensures
            r == id_of(*self),
    {
        match self {
            FlowStatus::FlowStarted => FlowStatusId::FlowStartedId,
            FlowStatus::BrandModalSent => FlowStatusId::BrandModalSentId,
            FlowStatus::BrandSelected => FlowStatusId::BrandSelectedId,
            FlowStatus::ModelModalSent => FlowStatusId::ModelModalSentId,
            FlowStatus::ModelSelected => FlowStatusId::ModelSelectedId,
            FlowStatus::IdentificationRequestSent => FlowStatusId::IdentificationRequestSentId,
            FlowStatus::IdentificationProvided => FlowStatusId::IdentificationProvidedId,
            FlowStatus::PartDescriptionRequested => FlowStatusId::PartDescriptionRequestedId,
            FlowStatus::PartDescriptionProvided => FlowStatusId::PartDescriptionProvidedId,
            FlowStatus::RequestAccepted => FlowStatusId::RequestAcceptedId,
            FlowStatus::Cancelled => FlowStatusId::CancelledId,
        }
    }

    /// The state that follows this one; `None` for the terminal states.
    pub fn successor(&self) -> (r: Option<FlowStatus>)
        ensures
            r == successor_of(*self),
    {
        match self {
            FlowStatus::RequestAccepted => None,
            FlowStatus::Cancelled => None,
            _ => FlowStatus::from_ordinal(self.ordinal() + 1),
        }
    }

    /// The shape of message that entering this state requires.
    pub fn required_response(&self) -> (r: Option<MessageType>)
        ensures
            r == required_kind_of(*self),
    {
        match self {
            FlowStatus::BrandModalSent => Some(MessageType::PlainText),
            FlowStatus::BrandSelected => Some(MessageType::ListSelection),
            FlowStatus::ModelSelected => Some(MessageType::ListSelection),
            FlowStatus::IdentificationProvided => Some(MessageType::PlainText),
            FlowStatus::PartDescriptionProvided => Some(MessageType::PlainTextAndImage),
            _ => None,
        }
    }

    /// Whether entering this state waits for the user.
    pub fn response_status(&self) -> (r: ResponseStatus)
        ensures
            r == (if required_kind_of(*self) is Some {
                ResponseStatus::ExpectingResponse
            } else {
                ResponseStatus::SystemMessage
            }),
    {
        match self.required_response() {
            Some(_) => ResponseStatus::ExpectingResponse,
            None => ResponseStatus::SystemMessage,
        }
    }

    /// The definition of this state in the flow table.
    pub fn value(&self) -> (r: StepDefinition)
        ensures
            defines(r, *self),
    {
        match self {
            FlowStatus::FlowStarted => plain_step(
                None,
                Some(FlowStatus::BrandModalSent),
                text_template("Escribe 'hola' para iniciar la solicitud."),
            ),
            FlowStatus::BrandModalSent => StepDefinition {
                required_response: Some(MessageType::PlainText),
                validation_rule: ValidationRule::Pattern(String::from_str("hola")),
                next_step: Some(FlowStatus::BrandSelected),
                successful_response: list_template("Selecciona la marca del vehiculo.", "Marcas"),
                data_origin: Some(DataSource { catalog: String::from_str("makes"), parameter_state: None }),
            },
            FlowStatus::BrandSelected => plain_step(
                Some(MessageType::ListSelection),
                Some(FlowStatus::ModelModalSent),
                echo_template("Has seleccionado ", "."),
            ),
            FlowStatus::ModelModalSent => StepDefinition {
                required_response: None,
                validation_rule: ValidationRule::Any,
                next_step: Some(FlowStatus::ModelSelected),
                successful_response: list_template(
                    "Selecciona el modelo correspondiente al vehiculo.",
                    "Modelos",
                ),
                data_origin: Some(DataSource {
                    catalog: String::from_str("models"),
                    parameter_state: Some(FlowStatus::BrandSelected),
                }),
            },
            FlowStatus::ModelSelected => plain_step(
                Some(MessageType::ListSelection),
                Some(FlowStatus::IdentificationRequestSent),
                echo_template("Has seleccionado ", "."),
            ),
            FlowStatus::IdentificationRequestSent => plain_step(
                None,
                Some(FlowStatus::IdentificationProvided),
                text_template("Ingresa la patente o VIN del vehiculo a consultar."),
            ),
            FlowStatus::IdentificationProvided => StepDefinition {
                required_response: Some(MessageType::PlainText),
                validation_rule: ValidationRule::VehicleId,
                next_step: Some(FlowStatus::PartDescriptionRequested),
                successful_response: text_template("El identificador provisto es valido."),
                data_origin: None,
            },
            FlowStatus::PartDescriptionRequested => plain_step(
                None,
                Some(FlowStatus::PartDescriptionProvided),
                text_template(
                    "Por favor, describa el repuesto que busca de la manera mas especifica posible, puede adjuntar una imagen en el mismo mensaje(solo una).",
                ),
            ),
            FlowStatus::PartDescriptionProvided => plain_step(
                Some(MessageType::PlainTextAndImage),
                Some(FlowStatus::RequestAccepted),
                text_template("Se recibio descripcion de repuesto."),
            ),
            FlowStatus::RequestAccepted => plain_step(
                None,
                None,
                text_template(
                    "Se recibio la solicitud de repuesto exitosamente, lo estaremos contactando una vez encontremos el repuesto buscado.",
                ),
            ),
            FlowStatus::Cancelled => plain_step(
                None,
                None,
                text_template(
                    "La solicitud expiro por inactividad. Escribe 'hola' para iniciar una nueva.",
                ),
            ),
        }
    }
}

impl FlowStatusId {
    /// Reads a state identifier from its position written in decimal;
    /// `None` for anything else.
    pub fn get_from_value(i: &String) -> (r: Option<FlowStatusId>)
        ensures
            r == (if is_decimal(i@) {
                match state_at(decimal_value(i@)) {
                    Some(s) => Some(id_of(s)),
                    None => None,
                }
            } else {
                None
            }),
    {
        match FlowStatus::get_from_value(i) {
            Some(s) => Some(s.id()),
            None => None,
        }
    }
}

/// The table's successor of a state depends on the state alone, every
/// non-terminal state is followed by the state at the next position, and
/// only the request-accepted and cancelled states end the flow.
pub proof fn successor_is_table_function(a: FlowStatus, b: FlowStatus)
    requires
        a == b,
    ensures
        successor_of(a) == successor_of(b),
        successor_of(a) matches Some(n) ==> ordinal(n) == ordinal(a) + 1,
        successor_of(a) is None <==> (a == FlowStatus::RequestAccepted || a == FlowStatus::Cancelled),
{
}

} // verus!
