//! Field checks: order numbers, Australian mobile numbers, states, postcodes
//! and e-mail addresses.

use regex::Regex;
use vstd::prelude::*;

verus! {

/// Orders are numbered with one of five two-letter prefixes, five digits and
/// an optional trailing `V`.
pub const ORDER_NUMBER_PATTERN: &'static str = "^(MH|MY|MC|MB|MR)\\d{5}V?$";

/// An Australian mobile number in international form, with or without `+`.
pub const MOBILE_NUMBER_PATTERN: &'static str = "^\\+?61\\d{9}$";

/// Whether `c`, a character above U+007F, is in the Unicode general category
/// Nd: the rest of what the regex class `\d` matches beyond `'0'..='9'`.
pub uninterp spec fn non_ascii_decimal_digit(c: char) -> bool;

/// What `\d` matches: a character of the Unicode general category Nd.
pub open spec fn is_decimal_digit(c: char) -> bool {
    ('0' <= c && c <= '9') || ('\u{7f}' < c && non_ascii_decimal_digit(c))
}

pub open spec fn digits_in(s: Seq<char>, lo: int, hi: int) -> bool {
    forall|i: int| lo <= i < hi ==> is_decimal_digit(#[trigger] s[i])
}

pub open spec fn is_order_prefix(a: char, b: char) -> bool {
    a == 'M' && (b == 'H' || b == 'Y' || b == 'C' || b == 'B' || b == 'R')
}

/// The strings that `^(MH|MY|MC|MB|MR)\d{5}V?$` matches.
pub open spec fn is_order_number(s: Seq<char>) -> bool {
    order_number_frame(s) && digits_in(s, 2, 7)
}

/// Everything that the order number pattern asks but the digits.
pub open spec fn order_number_frame(s: Seq<char>) -> bool {
    &&& (s.len() == 7 || (s.len() == 8 && s[7] == 'V'))
    &&& is_order_prefix(s[0], s[1])
}

/// `s` without a leading `+`, if it has one.
pub open spec fn without_plus(s: Seq<char>) -> Seq<char> {
    if s.len() > 0 && s[0] == '+' {
        s.drop_first()
    } else {
        s
    }
}

/// The strings that `^\+?61\d{9}$` matches.
pub open spec fn is_australian_mobile(s: Seq<char>) -> bool {
    mobile_number_frame(s) && digits_in(without_plus(s), 2, 11)
}

/// Everything that the mobile number pattern asks but the digits.
pub open spec fn mobile_number_frame(s: Seq<char>) -> bool {
    let body = without_plus(s);
    &&& body.len() == 11
    &&& body[0] == '6'
    &&& body[1] == '1'
}

/// One of the eight Australian state and territory abbreviations, matched
/// exactly and case-sensitively.
pub open spec fn is_state_code(s: Seq<char>) -> bool {
    ||| s == "NSW"@
    ||| s == "VIC"@
    ||| s == "QLD"@
    ||| s == "SA"@
    ||| s == "WA"@
    ||| s == "TAS"@
    ||| s == "NT"@
    ||| s == "ACT"@
}

/// Every state code is written in the capital letters `A` to `Z` alone, so a
/// text holding any other character (a lower-case letter, say) is refused.
pub proof fn state_codes_are_capitals(s: Seq<char>, i: int)
    requires
        0 <= i < s.len(),
        !('A' <= s[i] && s[i] <= 'Z'),
    ensures
        !is_state_code(s),
{
    reveal_strlit("NSW");
    reveal_strlit("VIC");
    reveal_strlit("QLD");
    reveal_strlit("SA");
    reveal_strlit("WA");
    reveal_strlit("TAS");
    reveal_strlit("NT");
    reveal_strlit("ACT");
}

/// An order number needs all five digits: four digits and the `V` suffix are
/// refused, since `V` is no digit.
pub proof fn four_digits_and_suffix_are_refused(s: Seq<char>)
    requires
        s.len() == 7,
        s[6] == 'V',
    ensures
        !is_order_number(s),
{
    assert(!is_decimal_digit(s[6]));
}

/// An Australian postcode: four digits `0` to `9`.
pub open spec fn is_postcode(s: Seq<char>) -> bool {
    s.len() == 4 && forall|i: int| 0 <= i < 4 ==> '0' <= #[trigger] s[i] && s[i] <= '9'
}

/// Whether validator's e-mail check accepts `s`.
pub uninterp spec fn email_accepted(s: Seq<char>) -> bool;

/// A refused field, with the rule that it broke.
#[derive(Debug, PartialEq, Eq)]
pub enum ValidationFailure {
    InvalidOrderNumber { value: String },
    InvalidMobileNumber { value: String },
    InvalidState { value: String },
    InvalidEmail { value: String },
    InvalidPostcode { value: String },
    EmptyField { field: RecordField },
}

/// The fields of an order record that must not be empty.
#[derive(Clone, Copy, Debug, PartialEq, Eq, Structural)]
pub enum RecordField {
    CustomerId,
    DeliveryDate,
    OrderNumber,
    DeliverySuburb,
}

/// Relies on regex's `Regex::new` and `Regex::is_match`: the two patterns above
/// compile, `^` and `$` anchor at the ends of the text, and `\d` is the class Nd.
#[verifier::external_body]
fn pattern_matches(pattern: &str, text: &str) -> (r: bool)
    requires
        pattern@ == ORDER_NUMBER_PATTERN@ || pattern@ == MOBILE_NUMBER_PATTERN@,
    ensures
        pattern@ == ORDER_NUMBER_PATTERN@ ==> (r <==> {
            &&& order_number_frame(text@)
            &&& forall|i: int|
                2 <= i < 7 ==> ('0' <= #[trigger] text@[i] && text@[i] <= '9')
                    || ('\u{7f}' < text@[i] && non_ascii_decimal_digit(text@[i]))
        }),
        pattern@ == MOBILE_NUMBER_PATTERN@ ==> (r <==> {
            &&& mobile_number_frame(text@)
            &&& forall|i: int|
                2 <= i < 11 ==> ('0' <= #[trigger] without_plus(text@)[i] && without_plus(
                    text@,
                )[i] <= '9') || ('\u{7f}' < without_plus(text@)[i] && non_ascii_decimal_digit(
                    without_plus(text@)[i],
                ))
        }),
{
    Regex::new(pattern).unwrap().is_match(text)
}

/// Relies on validator's `validate_email`, which never accepts a text without `@`.
#[verifier::external_body]
fn email_check(text: &str) -> (r: bool)
    ensures
        r == email_accepted(text@),
        r ==> text@.contains('@'),
{
    validator::validate_email(text)
}

/// Whether two strings hold the same characters.
pub fn same_text(a: &str, b: &str) -> (r: bool)
    ensures
        r == (a@ == b@),
{
    let n = a.unicode_len();
    if n != b.unicode_len() {
        return false;
    }
    let mut i: usize = 0;
    while i < n
        invariant
            n == a@.len(),
            n == b@.len(),
            i <= n,
            a@.subrange(0, i as int) == b@.subrange(0, i as int),
        decreases n - i,
    {
        if a.get_char(i) != b.get_char(i) {
            assert(a@[i as int] != b@[i as int]);
            return false;
        }
        assert(a@.subrange(0, i + 1) == a@.subrange(0, i as int).push(a@[i as int]));
        assert(b@.subrange(0, i + 1) == b@.subrange(0, i as int).push(b@[i as int]));
        i = i + 1;
    }
    assert(a@ == a@.subrange(0, n as int));
    assert(b@ == b@.subrange(0, n as int));
    true
}

/// Accepts exactly the order numbers of the form `(MH|MY|MC|MB|MR)\d{5}V?`.
pub fn validate_order_number(order_number: &str) -> (r: Result<(), ValidationFailure>)
    ensures
        r is Ok <==> is_order_number(order_number@),
        r matches Err(ValidationFailure::InvalidOrderNumber { value }) ==> value@
            == order_number@,
        r is Err ==> r->Err_0 is InvalidOrderNumber,
{
    let matched = pattern_matches(ORDER_NUMBER_PATTERN, order_number);
    if matched {
        Ok(())
    } else {
        Err(ValidationFailure::InvalidOrderNumber { value: order_number.to_string() })
    }
}

/// Accepts exactly the numbers of the form `\+?61\d{9}`.
pub fn validate_australian_mobile_number(phone_number: &str) -> (r: Result<(), ValidationFailure>)
    ensures
        r is Ok <==> is_australian_mobile(phone_number@),
        r matches Err(ValidationFailure::InvalidMobileNumber { value }) ==> value@
            == phone_number@,
        r is Err ==> r->Err_0 is InvalidMobileNumber,
{
    let matched = pattern_matches(MOBILE_NUMBER_PATTERN, phone_number);
    if matched {
        Ok(())
    } else {
        Err(ValidationFailure::InvalidMobileNumber { value: phone_number.to_string() })
    }
}

/// Accepts exactly `NSW`, `VIC`, `QLD`, `SA`, `WA`, `TAS`, `NT` and `ACT`.
pub fn validate_state(state: &str) -> (r: Result<(), ValidationFailure>)
    ensures
        r is Ok <==> is_state_code(state@),
        r matches Err(ValidationFailure::InvalidState { value }) ==> value@ == state@,
        r is Err ==> r->Err_0 is InvalidState,
{
    if same_text(state, "NSW") || same_text(state, "VIC") || same_text(state, "QLD") || same_text(
        state,
        "SA",
    ) || same_text(state, "WA") || same_text(state, "TAS") || same_text(state, "NT") || same_text(
        state,
        "ACT",
    ) {
        Ok(())
    } else {
        Err(ValidationFailure::InvalidState { value: state.to_string() })
    }
}

/// Accepts what validator's e-mail check accepts.
pub fn validate_email(email: &str) -> (r: Result<(), ValidationFailure>)
    ensures
        r is Ok <==> email_accepted(email@),
        r matches Err(ValidationFailure::InvalidEmail { value }) ==> value@ == email@,
        r is Err ==> r->Err_0 is InvalidEmail,
{
    if email_check(email) {
        Ok(())
    } else {
        Err(ValidationFailure::InvalidEmail { value: email.to_string() })
    }
}

/// Accepts exactly four digits `0` to `9`.
pub fn validate_postcode(postcode: &str) -> (r: Result<(), ValidationFailure>)
    ensures
        r is Ok <==> is_postcode(postcode@),
        r matches Err(ValidationFailure::InvalidPostcode { value }) ==> value@ == postcode@,
        r is Err ==> r->Err_0 is InvalidPostcode,
{
    let n = postcode.unicode_len();
    let mut ok = n == 4;
    let mut i: usize = 0;
    while ok && i < n
        invariant
            n == postcode@.len(),
            i <= n,
            ok ==> n == 4,
            ok ==> forall|j: int| 0 <= j < i ==> '0' <= #[trigger] postcode@[j] && postcode@[j] <= '9',
            !ok ==> !is_postcode(postcode@),
        decreases n - i,
    {
        let c = postcode.get_char(i);
        if !('0' <= c && c <= '9') {
            ok = false;
        }
        i = i + 1;
    }
    if ok {
        Ok(())
    } else {
        Err(ValidationFailure::InvalidPostcode { value: postcode.to_string() })
    }
}

} // verus!
