//! Turns an order number into a short customer message about the expected
//! delivery window, and checks the fields of the order records it reads.

pub mod validation;
pub mod record;
pub mod calendar;
pub mod message;
pub mod relay;
pub mod settings;
