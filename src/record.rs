//! The order record that the order service returns, and its field checks.

use crate::validation::{
    email_accepted, is_australian_mobile, is_postcode, is_state_code,
    validate_australian_mobile_number, validate_email, validate_postcode, validate_state,
    RecordField, ValidationFailure,
};
use vstd::prelude::*;

verus! {

/// Customer and delivery details of one order.
#[derive(Debug, PartialEq, Eq)]
pub struct DeliveryRecord {
    pub customer_id: String,
    pub customer_first_name: String,
    pub customer_last_name: String,
    pub customer_email: Option<String>,
    pub customer_primary_phone: Option<String>,
    pub customer_secondary_phone: Option<String>,
    /// The delivery date, written `DD-MM-YY`.
    pub delivery_date: String,
    pub order_number: String,
    pub customer_delivery_address: String,
    pub customer_delivery_postcode: String,
    pub customer_delivery_suburb: String,
    pub customer_delivery_state: String,
}

/// An absent optional field passes; a present one is checked by `check`.
pub open spec fn optional_passes(field: Option<String>, check: spec_fn(Seq<char>) -> bool) -> bool {
    match field {
        Some(v) => check(v@),
        None => true,
    }
}

/// The first field of `r`, in declaration order, that breaks its rule, and
/// how; `None` when every field passes.
pub open spec fn first_failure(r: DeliveryRecord) -> Option<ValidationFailure> {
    if r.customer_id@.len() < 1 {
        Some(ValidationFailure::EmptyField { field: RecordField::CustomerId })
    } else if r.customer_email is Some && !email_accepted(r.customer_email->0@) {
        Some(ValidationFailure::InvalidEmail { value: r.customer_email->0 })
    } else if r.customer_primary_phone is Some && !is_australian_mobile(
        r.customer_primary_phone->0@,
    ) {
        Some(ValidationFailure::InvalidMobileNumber { value: r.customer_primary_phone->0 })
    } else if r.customer_secondary_phone is Some && !is_australian_mobile(
        r.customer_secondary_phone->0@,
    ) {
        Some(ValidationFailure::InvalidMobileNumber { value: r.customer_secondary_phone->0 })
    } else if r.delivery_date@.len() < 1 {
        Some(ValidationFailure::EmptyField { field: RecordField::DeliveryDate })
    } else if r.order_number@.len() < 1 {
        Some(ValidationFailure::EmptyField { field: RecordField::OrderNumber })
    } else if !is_postcode(r.customer_delivery_postcode@) {
        Some(ValidationFailure::InvalidPostcode { value: r.customer_delivery_postcode })
    } else if r.customer_delivery_suburb@.len() < 1 {
        Some(ValidationFailure::EmptyField { field: RecordField::DeliverySuburb })
    } else if !is_state_code(r.customer_delivery_state@) {
        Some(ValidationFailure::InvalidState { value: r.customer_delivery_state })
    } else {
        None
    }
}

/// Every field of `r` passes its rule.
pub open spec fn record_valid(r: DeliveryRecord) -> bool {
    &&& r.customer_id@.len() >= 1
    &&& optional_passes(r.customer_email, |s: Seq<char>| email_accepted(s))
    &&& optional_passes(r.customer_primary_phone, |s: Seq<char>| is_australian_mobile(s))
    &&& optional_passes(r.customer_secondary_phone, |s: Seq<char>| is_australian_mobile(s))
    &&& r.delivery_date@.len() >= 1
    &&& r.order_number@.len() >= 1
    &&& is_postcode(r.customer_delivery_postcode@)
    &&& r.customer_delivery_suburb@.len() >= 1
    &&& is_state_code(r.customer_delivery_state@)
}

fn check_mobile(field: &Option<String>) -> (r: Result<(), ValidationFailure>)
    ensures
        r is Ok <==> optional_passes(*field, |s: Seq<char>| is_australian_mobile(s)),
        r is Err ==> field is Some && r->Err_0 == (ValidationFailure::InvalidMobileNumber {
            value: field->0,
        }),
{
    match field {
        Some(v) => match validate_australian_mobile_number(v.as_str()) {
            Ok(()) => Ok(()),
            Err(_) => Err(ValidationFailure::InvalidMobileNumber { value: v.clone() }),
        },
        None => Ok(()),
    }
}

impl DeliveryRecord {
    /// Checks the fields in declaration order and reports the first that
    /// breaks its rule.
    pub fn validate(&self) -> (r: Result<(), ValidationFailure>)
        ensures
            r is Ok <==> record_valid(*self),
            r is Ok <==> first_failure(*self) is None,
            r is Err ==> first_failure(*self) == Some(r->Err_0),
    {
        if self.customer_id.as_str().unicode_len() < 1 {
            return Err(ValidationFailure::EmptyField { field: RecordField::CustomerId });
        }
        match &self.customer_email {
            Some(e) => {
                if validate_email(e.as_str()).is_err() {
                    return Err(ValidationFailure::InvalidEmail { value: e.clone() });
                }
            },
            None => {},
        }
        check_mobile(&self.customer_primary_phone)?;
        check_mobile(&self.customer_secondary_phone)?;
        if self.delivery_date.as_str().unicode_len() < 1 {
            return Err(ValidationFailure::EmptyField { field: RecordField::DeliveryDate });
        }
        if self.order_number.as_str().unicode_len() < 1 {
            return Err(ValidationFailure::EmptyField { field: RecordField::OrderNumber });
        }
        if validate_postcode(self.customer_delivery_postcode.as_str()).is_err() {
            return Err(
                ValidationFailure::InvalidPostcode { value: self.customer_delivery_postcode.clone() },
            );
        }
        if self.customer_delivery_suburb.as_str().unicode_len() < 1 {
            return Err(ValidationFailure::EmptyField { field: RecordField::DeliverySuburb });
        }
        match validate_state(self.customer_delivery_state.as_str()) {
            Ok(()) => Ok(()),
            Err(_) => Err(
                ValidationFailure::InvalidState { value: self.customer_delivery_state.clone() },
            ),
        }
    }
}

} // verus!
