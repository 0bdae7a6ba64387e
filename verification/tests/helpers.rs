use newegg::helpers::NeweggDateTime;
use newegg::helpers::FORMAT;
use newegg::text::concat_strs;
use newegg::text::i64_to_string;
use newegg::text::join_strings;
use newegg::text::join_with_spaces;
use newegg::text::str_eq;
use newegg::text::to_strings;
use newegg::text::u64_to_string;

#[test]
fn unsigned_numbers_in_decimal() {
    for n in [0u64, 1, 9, 10, 11, 99, 100, 101, 429, 65535, 1_000_000, u64::MAX - 1, u64::MAX] {
        assert_eq!(u64_to_string(n), n.to_string());
    }
    assert_eq!(u64_to_string(0), "0");
    assert_eq!(u64_to_string(1000), "1000");
    assert_eq!(u64_to_string(u64::MAX), "18446744073709551615");
}

#[test]
fn signed_numbers_in_decimal() {
    for n in [0i64, 1, -1, 9, -9, 10, -10, 12345, -12345, i64::MAX, i64::MIN, i64::MIN + 1] {
        assert_eq!(i64_to_string(n), n.to_string());
    }
    assert_eq!(i64_to_string(-0), "0");
    assert_eq!(i64_to_string(i64::MIN), "-9223372036854775808");
    assert_eq!(i64_to_string(i64::MAX), "9223372036854775807");
}

#[test]
fn string_slices_compare_by_content() {
    assert!(str_eq("", ""));
    assert!(str_eq("true", "true"));
    assert!(!str_eq("true", "True"));
    assert!(!str_eq("true", "true "));
    assert!(!str_eq("", " "));
    assert!(str_eq("việt", "việt"));
}

#[test]
fn string_slices_are_joined() {
    assert_eq!(concat_strs("", ""), "");
    assert_eq!(concat_strs("a", ""), "a");
    assert_eq!(concat_strs("", "b"), "b");
    assert_eq!(concat_strs("/orders/", "7"), "/orders/7");
}

#[test]
fn words_are_joined_with_single_spaces() {
    assert_eq!(join_with_spaces(&vec![]), "");
    assert_eq!(join_with_spaces(&vec!["ups".to_string()]), "ups");
    assert_eq!(join_with_spaces(&vec!["ups".to_string(), "mi".to_string()]), "ups mi");
    assert_eq!(join_with_spaces(&vec!["a".to_string(), "".to_string(), "b".to_string()]), "a  b");
}

#[test]
fn parts_are_joined_with_a_separator() {
    let parts = vec!["a".to_string(), "b".to_string(), "c".to_string()];
    assert_eq!(join_strings(&parts, 3, "/"), "a/b/c");
    assert_eq!(join_strings(&parts, 2, "/"), "a/b");
    assert_eq!(join_strings(&parts, 1, "/"), "a");
    assert_eq!(join_strings(&parts, 0, "/"), "");
    assert_eq!(join_strings(&parts, 3, ""), "abc");
    assert_eq!(join_strings(&parts, 3, ", "), "a, b, c");
}

#[test]
fn slices_are_copied_one_for_one() {
    assert_eq!(to_strings(&[]), Vec::<String>::new());
    assert_eq!(to_strings(&["b", "a", "b"]), vec!["b", "a", "b"]);
}

#[test]
fn instants_keep_seconds_and_nanoseconds() {
    let instant = NeweggDateTime::from_utc(1518466603, 999_999_999);
    assert_eq!(instant.as_utc(), (1518466603, 999_999_999));
    assert_eq!(instant.seconds, 1518466603);
    assert_eq!(instant.nanoseconds, 999_999_999);
    assert_eq!(NeweggDateTime::from_utc(-1, 0).as_utc(), (-1, 0));
    assert_eq!(instant, instant.clone());
}

#[test]
fn instants_are_written_as_pacific_time() {
    assert_eq!(FORMAT, "%m/%d/%Y %H:%M:%S");
    let winter = NeweggDateTime::from_utc(1518466603, 0);
    assert_eq!(winter.to_pacific_string(), Some("02/12/2018 12:16:43".to_string()));
    let summer = NeweggDateTime::from_utc(1593630000, 0);
    assert_eq!(summer.to_pacific_string(), Some("07/01/2020 12:00:00".to_string()));
    let with_fraction = NeweggDateTime::from_utc(1593630000, 999_999_999);
    assert_eq!(with_fraction.to_pacific_string(), Some("07/01/2020 12:00:00".to_string()));
    let epoch = NeweggDateTime::from_utc(0, 0);
    assert_eq!(epoch.to_pacific_string(), Some("12/31/1969 16:00:00".to_string()));
}

#[test]
fn instants_beyond_four_digit_years_are_written_with_a_sign() {
    assert_eq!(
        NeweggDateTime::from_utc(253402300799, 0).to_pacific_string(),
        Some("12/31/9999 15:59:59".to_string())
    );
    assert_eq!(
        NeweggDateTime::from_utc(253402300800 + 8 * 3600, 0).to_pacific_string(),
        Some("01/01/+10000 00:00:00".to_string())
    );
    assert_eq!(
        NeweggDateTime::from_utc(-62135596800, 0).to_pacific_string(),
        Some("12/31/0000 16:07:02".to_string())
    );
    assert_eq!(
        NeweggDateTime::from_utc(-62135596800 - 366 * 86400, 0).to_pacific_string(),
        Some("12/31/-0001 16:07:02".to_string())
    );
}

#[test]
fn seconds_that_are_no_instant_are_not_written() {
    assert_eq!(NeweggDateTime::from_utc(i64::MAX, 0).to_pacific_string(), None);
    assert_eq!(NeweggDateTime::from_utc(i64::MIN, 0).to_pacific_string(), None);
}

#[test]
fn nanoseconds_that_are_no_fraction_are_not_written() {
    assert_eq!(NeweggDateTime::from_utc(1593630000, 2_000_000_000).to_pacific_string(), None);
    assert_eq!(NeweggDateTime::from_utc(1593630000, u32::MAX).to_pacific_string(), None);
}

#[test]
fn dates_are_read_as_pacific_time() {
    let winter = NeweggDateTime::from_pacific_str("02/12/2018 12:16:43").unwrap();
    assert_eq!(winter.as_utc(), (1518466603, 0));
    let summer = NeweggDateTime::from_pacific_str("07/01/2020 12:00:00").unwrap();
    assert_eq!(summer.as_utc(), (1593630000, 0));
    assert_eq!(summer.to_pacific_string(), Some("07/01/2020 12:00:00".to_string()));
}

#[test]
fn dates_in_another_form_are_refused() {
    assert_eq!(
        NeweggDateTime::from_pacific_str("2020/05/02 01:20:00"),
        Err("parse date error: input is out of range".to_string())
    );
    assert_eq!(
        NeweggDateTime::from_pacific_str("Feb 12 2018 12:16:43"),
        Err("parse date error: input contains invalid characters".to_string())
    );
    assert_eq!(
        NeweggDateTime::from_pacific_str(""),
        Err("parse date error: premature end of input".to_string())
    );
    assert_eq!(
        NeweggDateTime::from_pacific_str("02/12/2018 12:16:43 PST"),
        Err("parse date error: trailing input".to_string())
    );
    assert_eq!(
        NeweggDateTime::from_pacific_str("13/12/2018 12:16:43"),
        Err("parse date error: input is out of range".to_string())
    );
}

#[test]
fn wall_clock_times_that_pacific_time_skips_or_repeats_are_refused() {
    assert_eq!(
        NeweggDateTime::from_pacific_str("03/11/2018 02:30:00"),
        Err("parse date error: no possible date and time matching input".to_string())
    );
    assert_eq!(
        NeweggDateTime::from_pacific_str("11/04/2018 01:30:00"),
        Err("parse date error: input is not enough for unique date and time".to_string())
    );
}

#[test]
fn parsed_dates_become_instants_or_messages() {
    assert_eq!(NeweggDateTime::from_parsed(Ok(42)), Ok(NeweggDateTime::from_utc(42, 0)));
    assert_eq!(
        NeweggDateTime::from_parsed(Err("trailing input".to_string())),
        Err("parse date error: trailing input".to_string())
    );
    assert_eq!(NeweggDateTime::from_parsed(Err(String::new())), Err("parse date error: ".to_string()));
}
