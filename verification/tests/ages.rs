use guild_keeper::text::push_signed_decimal;
use chrono::{DateTime, NaiveDate, Utc};
use guild_keeper::utils::time::{age_at, age_in_words, date_diff, days_since, split_age};

fn days_by_chrono(day: i32, secs: i64, nanos: u32) -> i64 {
    let midnight = NaiveDate::from_num_days_from_ce_opt(day)
        .expect("a day")
        .and_hms_opt(0, 0, 0)
        .expect("midnight");
    let now = DateTime::from_timestamp(secs, nanos).expect("a moment").naive_utc();
    now.signed_duration_since(midnight).num_days()
}

#[test]
fn days_are_split_into_years_months_and_days() {
    assert_eq!(split_age(0), (0, 0, 0));
    assert_eq!(split_age(29), (0, 0, 29));
    assert_eq!(split_age(30), (0, 1, 0));
    assert_eq!(split_age(364), (0, 12, 4));
    assert_eq!(split_age(365), (1, 0, 0));
    assert_eq!(split_age(800), (2, 2, 10));
    assert_eq!(split_age(-400), (-1, -1, -5));
    assert_eq!(split_age(-1), (0, 0, -1));
    let days = i64::MIN;
    assert_eq!(split_age(days), (days / 365, (days % 365) / 30, (days % 365) % 30));
    let days = i64::MAX;
    assert_eq!(split_age(days), (days / 365, (days % 365) / 30, (days % 365) % 30));
}

#[test]
fn ages_are_written_in_words() {
    assert_eq!(age_in_words(0), "0 years 0 months 0 days");
    assert_eq!(age_in_words(800), "2 years 2 months 10 days");
    assert_eq!(age_in_words(-400), "-1 years -1 months -5 days");
    for days in [i64::MIN, -366, -1, 1, 364, 4000, i64::MAX] {
        let years = days / 365;
        let months = (days % 365) / 30;
        let rest = (days % 365) % 30;
        assert_eq!(age_in_words(days), format!("{} years {} months {} days", years, months, rest));
    }
}

#[test]
fn signed_numbers_carry_their_sign() {
    let mut text = String::from("x");
    push_signed_decimal(&mut text, -12);
    push_signed_decimal(&mut text, 0);
    push_signed_decimal(&mut text, i64::MIN);
    push_signed_decimal(&mut text, i64::MAX);
    assert_eq!(text, format!("x-120{}{}", i64::MIN, i64::MAX));
}

#[test]
fn age_is_counted_from_the_day_at_the_start_of_the_text() {
    let age = date_diff("2016-04-30T11:18:25.796Z").expect("a day at the start");
    let words: Vec<&str> = age.split(' ').collect();
    assert_eq!(words.len(), 6);
    assert_eq!((words[1], words[3], words[5]), ("years", "months", "days"));
    let years: i64 = words[0].parse().expect("a number");
    let months: i64 = words[2].parse().expect("a number");
    let days: i64 = words[4].parse().expect("a number");
    assert!(years >= 9);
    assert!((0..=12).contains(&months));
    assert!((0..30).contains(&days));
    assert_eq!(date_diff("2016-04-30"), Some(age));
}

#[test]
fn a_day_in_the_future_gives_a_negative_age() {
    let age = date_diff("9000-01-01").expect("a day");
    assert!(age.starts_with('-'));
}

#[test]
fn text_without_a_day_at_its_start_has_no_age() {
    assert_eq!(date_diff(""), None);
    assert_eq!(date_diff("2016-04-3"), None);
    assert_eq!(date_diff("abcdefghij"), None);
    assert_eq!(date_diff("2016-13-01T00:00:00Z"), None);
    assert_eq!(date_diff("2016-02-30T00:00:00Z"), None);
    assert_eq!(date_diff("30-04-2016T00:00:00Z"), None);
}

#[test]
fn days_are_counted_from_midnight_towards_zero() {
    assert_eq!(days_since(719_163, 0, 0), 0);
    assert_eq!(days_since(719_163, 86_399, 999_999_999), 0);
    assert_eq!(days_since(719_163, 86_400, 0), 1);
    assert_eq!(days_since(719_163, 86_400 * 800 + 5, 0), 800);
    assert_eq!(days_since(719_164, 0, 0), -1);
    assert_eq!(days_since(719_164, 0, 1), 0);
    assert_eq!(days_since(719_165, 0, 1), -1);
    assert_eq!(days_since(719_164, -1, 0), -1);
    assert_eq!(days_since(719_164, -1, 999_999_999), -1);
    assert_eq!(days_since(719_164, -2, 1), -1);
    assert_eq!(days_since(i32::MIN, i64::MAX, 0), (i64::MAX as i128 / 86_400 + 2_147_483_648 + 719_163) as i64);
    assert_eq!(days_since(i32::MAX, i64::MIN, 0), -((i64::MAX as i128 + 1) / 86_400 + 2_147_483_647 - 719_163) as i64);
}

#[test]
fn days_are_counted_as_chrono_counts_them() {
    let days = [1, 365, 719_162, 719_163, 719_164, 736_084, 740_000, 3_000_000, -100_000];
    let moments = [
        (0, 0),
        (0, 1),
        (-1, 999_999_999),
        (86_399, 0),
        (86_400, 0),
        (1_462_015_105, 796_000_000),
        (1_800_000_000, 5),
        (4_102_444_800, 0),
        (-86_400, 0),
        (-86_401, 500),
        (-3_000_000_000, 1),
        (200_000_000_000, 0),
    ];
    for day in days {
        for (secs, nanos) in moments {
            assert_eq!(
                days_since(day, secs, nanos),
                days_by_chrono(day, secs, nanos),
                "{} {} {}",
                day,
                secs,
                nanos
            );
        }
    }
}

#[test]
fn age_at_a_moment_is_exact() {
    assert_eq!(age_at(719_163, 86_400 * 800, 0), "2 years 2 months 10 days");
    assert_eq!(age_at(719_164, 0, 0), "0 years 0 months -1 days");
    assert_eq!(age_at(719_164, 0, 500), "0 years 0 months 0 days");
    let day = NaiveDate::from_ymd_opt(2016, 4, 30).expect("a day");
    assert_eq!(chrono::Datelike::num_days_from_ce(&day), 736_084);
    assert_eq!(age_at(736_084, 1_462_015_105, 796_000_000), "0 years 0 months 0 days");
    assert_eq!(age_at(736_084, 1_462_015_105 + 86_400 * 400, 0), "1 years 1 months 5 days");
}

#[test]
fn age_of_a_date_is_what_chrono_counts_now() {
    let midnight = NaiveDate::from_ymd_opt(2016, 4, 30)
        .expect("a day")
        .and_hms_opt(0, 0, 0)
        .expect("midnight");
    let before = Utc::now().naive_utc().signed_duration_since(midnight).num_days();
    let age = date_diff("2016-04-30T11:18:25.796Z").expect("a day at the start");
    let after = Utc::now().naive_utc().signed_duration_since(midnight).num_days();
    assert!(age == age_in_words(before) || age == age_in_words(after), "{}", age);
}
