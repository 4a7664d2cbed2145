//! The date model against chrono's calendar, and the rendering the error
//! messages use.

use chrono::{Datelike, NaiveDate};
use croptrack::date::{current_date, Date};
use croptrack::misc::date_validation::past_or_present_validation;

fn date(y: u32, m: u8, d: u8) -> Date {
    Date { year: y, month: m, day: d }
}

#[test]
fn validity_matches_chrono_over_a_grid() {
    for year in [1899u32, 1900, 1996, 2000, 2023, 2024] {
        for month in 0u8..=13 {
            for day in 0u8..=32 {
                let mine = Date::from_ymd(year, month, day).is_some();
                let theirs =
                    NaiveDate::from_ymd_opt(year as i32, month as u32, day as u32).is_some();
                assert_eq!(mine, theirs, "year {year} month {month} day {day}");
            }
        }
    }
}

#[test]
fn leap_years_follow_the_gregorian_rule() {
    assert!(Date::from_ymd(2024, 2, 29).is_some());
    assert!(Date::from_ymd(2000, 2, 29).is_some());
    assert!(Date::from_ymd(1900, 2, 29).is_none());
    assert!(Date::from_ymd(2023, 2, 29).is_none());
}

#[test]
fn ordering_matches_chrono() {
    let samples = [
        (2024u32, 1u8, 10u8),
        (2024, 1, 5),
        (2024, 2, 1),
        (2023, 12, 31),
        (2024, 1, 11),
        (2025, 1, 1),
    ];
    for a in samples {
        for b in samples {
            let da = date(a.0, a.1, a.2);
            let db = date(b.0, b.1, b.2);
            let ca = NaiveDate::from_ymd_opt(a.0 as i32, a.1 as u32, a.2 as u32).unwrap();
            let cb = NaiveDate::from_ymd_opt(b.0 as i32, b.1 as u32, b.2 as u32).unwrap();
            assert_eq!(da.le(&db), ca <= cb);
            assert_eq!(da.lt(&db), ca < cb);
        }
    }
}

#[test]
fn format_dmy_matches_chrono_day_month_year() {
    let samples = [(2024u32, 1u8, 10u8), (2024, 11, 5), (987, 2, 28), (33, 12, 1)];
    for (y, m, d) in samples {
        let mine = date(y, m, d).format_dmy();
        let theirs = NaiveDate::from_ymd_opt(y as i32, m as u32, d as u32)
            .unwrap()
            .format("%d/%m/%Y")
            .to_string();
        assert_eq!(mine, theirs, "year {y} month {m} day {d}");
    }
    assert_eq!(date(2024, 1, 10).format_dmy(), "10/01/2024");
}

#[test]
fn current_date_is_a_real_calendar_date() {
    let today = current_date();
    assert!(Date::from_ymd(today.year, today.month, today.day).is_some());
    assert!(today.year >= 2024);
    let chrono_today = chrono::Local::now().date_naive();
    assert_eq!(today.year as i32, chrono_today.year());
    assert_eq!(today.month as u32, chrono_today.month());
    assert_eq!(today.day as u32, chrono_today.day());
}

#[test]
fn past_or_present_accepts_the_past_and_refuses_the_future() {
    assert!(past_or_present_validation(&date(2000, 1, 1)).is_ok());
    let err = past_or_present_validation(&date(9999, 12, 31)).unwrap_err();
    assert_eq!(err.status_code(), 422);
    assert_eq!(err.message(), "date must be in the past or present");
}
