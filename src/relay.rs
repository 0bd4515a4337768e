//! The decisions of the message endpoint. Each call takes what the last
//! outside step gave and says what to do next: answer, look the order up, or
//! ask the text generator.

use crate::calendar::{delivery_window, delivery_window_spec, Month, Week, WindowError};
use crate::message::{generation_prompt, prompt_text, template_message, template_text};
use crate::record::{record_valid, DeliveryRecord};
use crate::validation::{is_order_number, validate_order_number, ValidationFailure};
use vstd::prelude::*;

verus! {

pub const STATUS_OK: u16 = 200;

pub const STATUS_BAD_REQUEST: u16 = 400;

pub const STATUS_INTERNAL_ERROR: u16 = 500;

pub const HEALTHY_BODY: &'static str = "Server is healthy!";

pub const INVALID_ORDER_NUMBER: &'static str = "Invalid order number ";

pub const LOOKUP_FAILED: &'static str = "Order lookup failed";

pub const INVALID_RECORD: &'static str = "Invalid order record";

pub const INVALID_DATE: &'static str = "Invalid date format";

pub const WEEK_UNNAMED: &'static str = "Delivery week cannot be described";

pub const GENERATION_FAILED: &'static str = "Message generation failed";

pub const ORDER_QUERY: &'static str = "?order_number=";

/// The body of a message request.
#[derive(Debug, PartialEq, Eq)]
pub struct Input {
    pub order_number: String,
}

impl Input {
    /// Accepts the request when its order number has the required form.
    pub fn validate(&self) -> (r: Result<(), ValidationFailure>)
        ensures
            r is Ok <==> is_order_number(self.order_number@),
            r matches Err(ValidationFailure::InvalidOrderNumber { value }) ==> value@
                == self.order_number@,
            r is Err ==> r->Err_0 is InvalidOrderNumber,
    {
        validate_order_number(self.order_number.as_str())
    }
}

/// Settings read once at start-up.
#[derive(Clone, Debug)]
pub struct RelayConfig {
    /// Where orders are looked up.
    pub order_api_endpoint: String,
    /// Whether messages come from the text generator rather than the template.
    pub generation_enabled: bool,
}

/// A plain-text HTTP answer.
#[derive(Debug, PartialEq, Eq)]
pub struct Reply {
    pub status: u16,
    pub body: String,
}

impl View for Reply {
    type V = (u16, Seq<char>);

    open spec fn view(&self) -> (u16, Seq<char>) {
        (self.status, self.body@)
    }
}

/// What the endpoint does next.
#[derive(Debug, PartialEq, Eq)]
pub enum Step {
    /// Answer the request.
    Respond(Reply),
    /// Send an order lookup to `url`, then call `after_lookup`.
    LookUpOrder { url: String },
    /// Ask the text generator with `prompt`, then call `after_generation`.
    Generate { prompt: String },
}

/// What a `Step` holds, as plain values.
pub enum StepView {
    Respond(u16, Seq<char>),
    LookUpOrder(Seq<char>),
    Generate(Seq<char>),
}

impl View for Step {
    type V = StepView;

    open spec fn view(&self) -> StepView {
        match self {
            Step::Respond(reply) => StepView::Respond(reply.status, reply.body@),
            Step::LookUpOrder { url } => StepView::LookUpOrder(url@),
            Step::Generate { prompt } => StepView::Generate(prompt@),
        }
    }
}

pub open spec fn lookup_url(endpoint: Seq<char>, order_number: Seq<char>) -> Seq<char> {
    endpoint + ORDER_QUERY@ + order_number
}

/// The order service address for one order: `<endpoint>?order_number=<order>`.
pub fn order_lookup_url(endpoint: &str, order_number: &str) -> (r: String)
    ensures
        r@ == lookup_url(endpoint@, order_number@),
{
    let mut url = String::from_str(endpoint);
    url.append(ORDER_QUERY);
    url.append(order_number);
    url
}

fn respond(status: u16, body: &str) -> (r: Step)
    ensures
        r@ == StepView::Respond(status, body@),
{
    Step::Respond(Reply { status, body: String::from_str(body) })
}

pub open spec fn begin_spec(endpoint: Seq<char>, order_number: Seq<char>) -> StepView {
    if is_order_number(order_number) {
        StepView::LookUpOrder(lookup_url(endpoint, order_number))
    } else {
        StepView::Respond(STATUS_BAD_REQUEST, INVALID_ORDER_NUMBER@ + order_number)
    }
}

/// First step of a message request: refuse a malformed order number with a
/// client error, else look the order up.
pub fn begin(config: &RelayConfig, input: &Input) -> (r: Step)
    ensures
        r@ == begin_spec(config.order_api_endpoint@, input.order_number@),
{
    match input.validate() {
        Ok(()) => Step::LookUpOrder {
            url: order_lookup_url(config.order_api_endpoint.as_str(), input.order_number.as_str()),
        },
        Err(_) => {
            let mut body = String::from_str(INVALID_ORDER_NUMBER);
            body.append(input.order_number.as_str());
            Step::Respond(Reply { status: STATUS_BAD_REQUEST, body })
        },
    }
}

pub open spec fn window_step_spec(
    generation_enabled: bool,
    window: Result<(Week, Month), WindowError>,
) -> StepView {
    match window {
        Err(WindowError::InvalidDateFormat) => StepView::Respond(STATUS_BAD_REQUEST, INVALID_DATE@),
        Err(WindowError::WeekOutOfRange { .. }) => StepView::Respond(
            STATUS_INTERNAL_ERROR,
            WEEK_UNNAMED@,
        ),
        Ok((w, m)) => if generation_enabled {
            StepView::Generate(prompt_text(w, m))
        } else {
            StepView::Respond(STATUS_OK, template_text(w, m))
        },
    }
}

/// Answers from a delivery window: the template message, or a prompt for the
/// generator when generation is on. An unreadable date is a client error; a
/// week without a name, a server error.
pub fn window_step(generation_enabled: bool, window: Result<(Week, Month), WindowError>) -> (r: Step)
    ensures
        r@ == window_step_spec(generation_enabled, window),
{
    match window {
        Err(WindowError::InvalidDateFormat) => respond(STATUS_BAD_REQUEST, INVALID_DATE),
        Err(WindowError::WeekOutOfRange { .. }) => respond(STATUS_INTERNAL_ERROR, WEEK_UNNAMED),
        Ok((w, m)) => if generation_enabled {
            Step::Generate { prompt: generation_prompt(w, m) }
        } else {
            Step::Respond(Reply { status: STATUS_OK, body: template_message(w, m) })
        },
    }
}

pub open spec fn after_lookup_spec(generation_enabled: bool, lookup: Option<DeliveryRecord>) -> StepView {
    match lookup {
        None => StepView::Respond(STATUS_INTERNAL_ERROR, LOOKUP_FAILED@),
        Some(rec) => if !record_valid(rec) {
            StepView::Respond(STATUS_BAD_REQUEST, INVALID_RECORD@)
        } else {
            window_step_spec(generation_enabled, delivery_window_spec(rec.delivery_date@))
        },
    }
}

/// Second step: `lookup` is the decoded order record, or `None` where the
/// lookup failed in transport or decoding, a server error. A record whose
/// fields break their rules (a bad state or mobile number, say) is a
/// validation error, answered as a client error.
pub fn after_lookup(config: &RelayConfig, lookup: Option<DeliveryRecord>) -> (r: Step)
    ensures
        r@ == after_lookup_spec(config.generation_enabled, lookup),
{
    match lookup {
        None => respond(STATUS_INTERNAL_ERROR, LOOKUP_FAILED),
        Some(rec) => match rec.validate() {
            Err(_) => respond(STATUS_BAD_REQUEST, INVALID_RECORD),
            Ok(()) => window_step(
                config.generation_enabled,
                delivery_window(rec.delivery_date.as_str()),
            ),
        },
    }
}

pub open spec fn after_generation_spec(candidates: Option<Seq<String>>) -> (u16, Seq<char>) {
    match candidates {
        Some(c) => if c.len() > 0 {
            (STATUS_OK, c[0]@)
        } else {
            (STATUS_INTERNAL_ERROR, GENERATION_FAILED@)
        },
        None => (STATUS_INTERNAL_ERROR, GENERATION_FAILED@),
    }
}

/// Last step in generation mode: `candidates` are the generator's texts, or
/// `None` where the call failed in transport or decoding. The first text is
/// the answer; no text at all is a server error.
pub fn after_generation(candidates: Option<Vec<String>>) -> (r: Reply)
    ensures
        r@ == after_generation_spec(
            match candidates {
                Some(v) => Some(v@),
                None => None,
            },
        ),
{
    match candidates {
        Some(v) => match crate::message::first_candidate(&v) {
            Some(text) => Reply { status: STATUS_OK, body: text },
            None => Reply { status: STATUS_INTERNAL_ERROR, body: String::from_str(GENERATION_FAILED) },
        },
        None => Reply { status: STATUS_INTERNAL_ERROR, body: String::from_str(GENERATION_FAILED) },
    }
}

/// A request whose order number breaks the required form is answered with a
/// client error, before any lookup.
pub proof fn malformed_order_number_is_refused(endpoint: Seq<char>, order_number: Seq<char>)
    requires
        !is_order_number(order_number),
    ensures
        begin_spec(endpoint, order_number) matches StepView::Respond(status, _) && status
            == STATUS_BAD_REQUEST,
{
}

/// A well-formed order number is always looked up.
pub proof fn well_formed_order_number_is_looked_up(endpoint: Seq<char>, order_number: Seq<char>)
    requires
        is_order_number(order_number),
    ensures
        begin_spec(endpoint, order_number) is LookUpOrder,
{
}

/// A failed order lookup is answered with a server error, in either mode.
pub proof fn failed_lookup_is_server_error(generation_enabled: bool)
    ensures
        after_lookup_spec(generation_enabled, None) matches StepView::Respond(status, _)
            && status == STATUS_INTERNAL_ERROR,
{
}

/// A looked-up record whose fields break their rules is answered with a
/// client error, in either mode.
pub proof fn invalid_record_is_client_error(generation_enabled: bool, rec: DeliveryRecord)
    requires
        !record_valid(rec),
    ensures
        after_lookup_spec(generation_enabled, Some(rec)) matches StepView::Respond(status, _)
            && status == STATUS_BAD_REQUEST,
{
}

/// The liveness answer.
pub fn healthy() -> (r: Reply)
    ensures
        r@ == (STATUS_OK, HEALTHY_BODY@),
{
    Reply { status: STATUS_OK, body: String::from_str(HEALTHY_BODY) }
}

} // verus!
