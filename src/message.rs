//! The customer message, and the prompt that asks a text generator for one.

use crate::calendar::{Month, Week};
use vstd::prelude::*;

verus! {

pub const TEMPLATE_OPENING: &'static str = "Dear Customer, we at Nick Scali Castle Hill are pleased to inform you that your delivery is tentatively booked for the ";

pub const WEEK_OF: &'static str = " week of ";

pub const TEMPLATE_CLOSING: &'static str = ". We will notify you with the exact date as soon as possible. Thank you for choosing our service!";

pub const PROMPT_OPENING: &'static str = "I need to send an SMS to a customer who has purchased furniture from Nick Scali. The typical delivery takes around 10-12 weeks, and we give an update at the 6-8 week mark. Their delivery is tentatively set for the ";

pub const PROMPT_CLOSING: &'static str = ". The sms will be no longer than 2-3 sentences. Can you create a concise yet friendly SMS that informs them of the tentative delivery week, reassures them about the update, and thanks them for their purchase? I want to make sure they know we'll notify them with the exact date as soon as possible.";

/// `opening`, then "<week> week of <month>", then `closing`.
pub open spec fn around_window(opening: Seq<char>, week: Week, month: Month, closing: Seq<char>) -> Seq<char> {
    opening + week.name() + WEEK_OF@ + month.name() + closing
}

pub open spec fn template_text(week: Week, month: Month) -> Seq<char> {
    around_window(TEMPLATE_OPENING@, week, month, TEMPLATE_CLOSING@)
}

pub open spec fn prompt_text(week: Week, month: Month) -> Seq<char> {
    around_window(PROMPT_OPENING@, week, month, PROMPT_CLOSING@)
}

fn compose(opening: &str, week: Week, month: Month, closing: &str) -> (r: String)
    ensures
        r@ == around_window(opening@, week, month, closing@),
{
    let mut s = String::from_str(opening);
    s.append(week.as_str());
    s.append(WEEK_OF);
    s.append(month.as_str());
    s.append(closing);
    s
}

/// The fixed customer message for a delivery in `week` of `month`.
pub fn template_message(week: Week, month: Month) -> (r: String)
    ensures
        r@ == template_text(week, month),
{
    compose(TEMPLATE_OPENING, week, month, TEMPLATE_CLOSING)
}

/// The request for a short, friendly message about a delivery in `week` of
/// `month`, for a text generator to answer.
pub fn generation_prompt(week: Week, month: Month) -> (r: String)
    ensures
        r@ == prompt_text(week, month),
{
    compose(PROMPT_OPENING, week, month, PROMPT_CLOSING)
}

/// The generator's first candidate text, if it gave any.
pub fn first_candidate(candidates: &Vec<String>) -> (r: Option<String>)
    ensures
        candidates@.len() == 0 ==> r is None,
        candidates@.len() > 0 ==> r == Some(candidates@[0]),
{
    if candidates.len() == 0 {
        None
    } else {
        Some(candidates[0].clone())
    }
}

} // verus!
