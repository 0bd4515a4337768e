use order_sms_relay::calendar::{delivery_window, window_for, Month, Week, WindowError};

#[test]
fn christmas_2023_is_in_iso_week_52_of_december() {
    assert_eq!(
        delivery_window("25-12-23"),
        Err(WindowError::WeekOutOfRange { week: 52, month: Month::December })
    );
}

#[test]
fn early_january_2025_is_first_week() {
    assert_eq!(delivery_window("03-01-25"), Ok((Week::First, Month::January)));
}

#[test]
fn first_of_january_2021_belongs_to_week_53() {
    assert_eq!(
        delivery_window("01-01-21"),
        Err(WindowError::WeekOutOfRange { week: 53, month: Month::January })
    );
    assert_eq!(delivery_window("04-01-21"), Ok((Week::First, Month::January)));
}

#[test]
fn later_weeks_of_january_get_ordinals() {
    // 2024-01-29 is a Monday of ISO week 5.
    assert_eq!(delivery_window("29-01-24"), Ok((Week::Fifth, Month::January)));
    assert_eq!(delivery_window("10-01-24"), Ok((Week::Second, Month::January)));
}

#[test]
fn unreadable_dates_are_refused() {
    for d in ["", "2023-12-25", "31-02-23", "25/12/23", "xx-yy-zz", "32-01-23"] {
        assert_eq!(delivery_window(d), Err(WindowError::InvalidDateFormat), "{:?}", d);
    }
}

#[test]
fn window_for_maps_numbers_to_names() {
    assert_eq!(window_for(1, 1), Ok((Week::First, Month::January)));
    assert_eq!(window_for(2, 2), Ok((Week::Second, Month::February)));
    assert_eq!(window_for(3, 6), Ok((Week::Third, Month::June)));
    assert_eq!(window_for(4, 11), Ok((Week::Fourth, Month::November)));
    assert_eq!(window_for(5, 12), Ok((Week::Fifth, Month::December)));
    assert_eq!(window_for(6, 12), Err(WindowError::WeekOutOfRange { week: 6, month: Month::December }));
    assert_eq!(window_for(0, 3), Err(WindowError::WeekOutOfRange { week: 0, month: Month::March }));
    assert_eq!(window_for(1, 13), Err(WindowError::InvalidDateFormat));
    assert_eq!(window_for(1, 0), Err(WindowError::InvalidDateFormat));
}

#[test]
fn week_numbers_outside_one_to_five_have_no_name() {
    assert_eq!(Week::from_number(0), None);
    assert_eq!(Week::from_number(6), None);
    assert_eq!(Week::from_number(53), None);
    assert_eq!(Week::from_number(3), Some(Week::Third));
}

#[test]
fn month_numbers_map_in_order() {
    assert_eq!(Month::from_number(1), Some(Month::January));
    assert_eq!(Month::from_number(12), Some(Month::December));
    assert_eq!(Month::from_number(0), None);
    assert_eq!(Month::from_number(13), None);
}

#[test]
fn names_are_spelled_out() {
    assert_eq!(Week::First.as_str(), "First");
    assert_eq!(Week::Fifth.as_str(), "Fifth");
    assert_eq!(Month::September.as_str(), "September");
    assert_eq!(Month::December.as_str(), "December");
}
