use order_sms_relay::calendar::{Month, Week, WindowError};
use order_sms_relay::message::{first_candidate, generation_prompt, template_message};
use order_sms_relay::record::DeliveryRecord;
use order_sms_relay::relay::{
    after_generation, after_lookup, begin, healthy, order_lookup_url, window_step, Input,
    RelayConfig, Reply, Step,
};
use order_sms_relay::validation::{RecordField, ValidationFailure};

fn record(delivery_date: &str) -> DeliveryRecord {
    DeliveryRecord {
        customer_id: "C-1001".to_string(),
        customer_first_name: "Jane".to_string(),
        customer_last_name: "Citizen".to_string(),
        customer_email: Some("jane@example.com".to_string()),
        customer_primary_phone: Some("+61412345678".to_string()),
        customer_secondary_phone: None,
        delivery_date: delivery_date.to_string(),
        order_number: "MY12345V".to_string(),
        customer_delivery_address: "1 Castle St".to_string(),
        customer_delivery_postcode: "2154".to_string(),
        customer_delivery_suburb: "Castle Hill".to_string(),
        customer_delivery_state: "NSW".to_string(),
    }
}

fn config(generation_enabled: bool) -> RelayConfig {
    RelayConfig {
        order_api_endpoint: "http://example.com/order_api".to_string(),
        generation_enabled,
    }
}

const JANUARY_TEMPLATE: &str = "Dear Customer, we at Nick Scali Castle Hill are pleased to inform you that your delivery is tentatively booked for the First week of January. We will notify you with the exact date as soon as possible. Thank you for choosing our service!";

#[test]
fn test_send_message() {
    let cfg = config(false);
    let input = Input { order_number: "MY12345V".to_string() };
    match begin(&cfg, &input) {
        Step::LookUpOrder { url } => {
            assert_eq!(url, "http://example.com/order_api?order_number=MY12345V")
        }
        other => panic!("expected a lookup, got {:?}", other),
    }
    match after_lookup(&cfg, Some(record("03-01-25"))) {
        Step::Respond(reply) => assert_eq!(reply.status, 200),
        other => panic!("expected an answer, got {:?}", other),
    }
}

#[test]
fn template_mode_end_to_end() {
    let step = after_lookup(&config(false), Some(record("03-01-25")));
    assert_eq!(step, Step::Respond(Reply { status: 200, body: JANUARY_TEMPLATE.to_string() }));
}

#[test]
fn generation_mode_asks_for_a_prompt() {
    let step = after_lookup(&config(true), Some(record("03-01-25")));
    assert_eq!(step, Step::Generate { prompt: generation_prompt(Week::First, Month::January) });
}

#[test]
fn malformed_order_number_is_client_error() {
    let input = Input { order_number: "XY12345".to_string() };
    assert_eq!(
        begin(&config(false), &input),
        Step::Respond(Reply { status: 400, body: "Invalid order number XY12345".to_string() })
    );
}

#[test]
fn failed_lookup_is_server_error() {
    for enabled in [false, true] {
        assert_eq!(
            after_lookup(&config(enabled), None),
            Step::Respond(Reply { status: 500, body: "Order lookup failed".to_string() })
        );
    }
}

#[test]
fn bad_mobile_in_record_is_client_error() {
    let mut r = record("03-01-25");
    r.customer_primary_phone = Some("0412345678".to_string());
    assert_eq!(
        after_lookup(&config(true), Some(r)),
        Step::Respond(Reply { status: 400, body: "Invalid order record".to_string() })
    );
}

#[test]
fn unreadable_delivery_date_is_client_error() {
    assert_eq!(
        after_lookup(&config(false), Some(record("2025-01-03"))),
        Step::Respond(Reply { status: 400, body: "Invalid date format".to_string() })
    );
}

#[test]
fn unnamed_week_is_server_error() {
    assert_eq!(
        after_lookup(&config(false), Some(record("25-12-23"))),
        Step::Respond(Reply { status: 500, body: "Delivery week cannot be described".to_string() })
    );
}

#[test]
fn invalid_record_is_client_error() {
    let mut r = record("03-01-25");
    r.customer_delivery_state = "nsw".to_string();
    assert_eq!(
        after_lookup(&config(false), Some(r)),
        Step::Respond(Reply { status: 400, body: "Invalid order record".to_string() })
    );
}

#[test]
fn window_step_covers_each_outcome() {
    assert_eq!(
        window_step(false, Err(WindowError::InvalidDateFormat)),
        Step::Respond(Reply { status: 400, body: "Invalid date format".to_string() })
    );
    assert_eq!(
        window_step(false, Err(WindowError::WeekOutOfRange { week: 9, month: Month::March })),
        Step::Respond(Reply { status: 500, body: "Delivery week cannot be described".to_string() })
    );
    assert_eq!(
        window_step(false, Ok((Week::First, Month::January))),
        Step::Respond(Reply { status: 200, body: JANUARY_TEMPLATE.to_string() })
    );
}

#[test]
fn generated_text_is_the_first_candidate() {
    let reply = after_generation(Some(vec!["Hello there".to_string(), "Second".to_string()]));
    assert_eq!(reply, Reply { status: 200, body: "Hello there".to_string() });
}

#[test]
fn missing_or_empty_generation_is_server_error() {
    let failed = Reply { status: 500, body: "Message generation failed".to_string() };
    assert_eq!(after_generation(None), failed);
    assert_eq!(after_generation(Some(Vec::new())), failed);
}

#[test]
fn health_answer_is_fixed() {
    assert_eq!(healthy(), Reply { status: 200, body: "Server is healthy!".to_string() });
}

#[test]
fn lookup_url_appends_query() {
    assert_eq!(order_lookup_url("http://h/o", "MR00001"), "http://h/o?order_number=MR00001");
}

#[test]
fn template_interpolates_week_and_month() {
    assert_eq!(template_message(Week::First, Month::January), JANUARY_TEMPLATE);
    let t = template_message(Week::Third, Month::August);
    assert!(t.contains("booked for the Third week of August. We will"));
}

#[test]
fn prompt_interpolates_week_and_month() {
    let p = generation_prompt(Week::Second, Month::May);
    assert!(p.starts_with("I need to send an SMS to a customer who has purchased furniture from Nick Scali. "));
    assert!(p.contains("tentatively set for the Second week of May. The sms will be no longer than 2-3 sentences."));
    assert!(p.ends_with("notify them with the exact date as soon as possible."));
}

#[test]
fn first_candidate_picks_the_head() {
    assert_eq!(first_candidate(&vec!["a".to_string(), "b".to_string()]), Some("a".to_string()));
    assert_eq!(first_candidate(&Vec::new()), None);
}

#[test]
fn valid_record_passes() {
    assert_eq!(record("03-01-25").validate(), Ok(()));
    let mut r = record("03-01-25");
    r.customer_email = None;
    r.customer_primary_phone = None;
    assert_eq!(r.validate(), Ok(()));
}

#[test]
fn record_reports_first_broken_field() {
    let mut r = record("03-01-25");
    r.customer_delivery_postcode = "215".to_string();
    assert_eq!(r.validate(), Err(ValidationFailure::InvalidPostcode { value: "215".to_string() }));

    let mut r = record("03-01-25");
    r.customer_delivery_postcode = "21a4".to_string();
    assert_eq!(r.validate(), Err(ValidationFailure::InvalidPostcode { value: "21a4".to_string() }));

    let mut r = record("03-01-25");
    r.customer_secondary_phone = Some("0412345678".to_string());
    r.customer_delivery_state = "XX".to_string();
    assert_eq!(
        r.validate(),
        Err(ValidationFailure::InvalidMobileNumber { value: "0412345678".to_string() })
    );

    let mut r = record("03-01-25");
    r.customer_id = String::new();
    assert_eq!(r.validate(), Err(ValidationFailure::EmptyField { field: RecordField::CustomerId }));

    let mut r = record("03-01-25");
    r.customer_delivery_suburb = String::new();
    assert_eq!(r.validate(), Err(ValidationFailure::EmptyField { field: RecordField::DeliverySuburb }));

    let mut r = record("03-01-25");
    r.customer_email = Some("nobody".to_string());
    assert_eq!(r.validate(), Err(ValidationFailure::InvalidEmail { value: "nobody".to_string() }));

    let mut r = record("03-01-25");
    r.customer_delivery_state = "Qld".to_string();
    assert_eq!(r.validate(), Err(ValidationFailure::InvalidState { value: "Qld".to_string() }));
}

#[test]
fn input_validation_follows_order_number_rule() {
    assert!(Input { order_number: "MB77777".to_string() }.validate().is_ok());
    assert!(Input { order_number: "MB7777".to_string() }.validate().is_err());
}
