use asteroids::save::{format_decimal, get_high_score, parse_high_score, save_high_score};

#[test]
fn a_missing_file_holds_no_high_score() {
    assert_eq!(get_high_score(None), 0);
}

#[test]
fn a_high_score_is_kept_only_when_it_is_beaten() {
    assert_eq!(get_high_score(None), 0);
    let written = save_high_score(None, 150).unwrap();
    assert_eq!(written, b"150".to_vec());
    assert_eq!(get_high_score(Some(&written)), 150);
    assert_eq!(save_high_score(Some(&written), 100), None);
    assert_eq!(save_high_score(Some(&written), 150), None);
    assert_eq!(save_high_score(Some(&written), 151), Some(b"151".to_vec()));
}

#[test]
fn a_score_of_zero_is_never_written() {
    assert_eq!(save_high_score(None, 0), None);
    assert_eq!(save_high_score(Some(b"garbage"), 0), None);
    assert_eq!(save_high_score(Some(b"garbage"), 1), Some(b"1".to_vec()));
}

#[test]
fn text_that_is_no_number_counts_as_zero() {
    assert_eq!(get_high_score(Some(b"")), 0);
    assert_eq!(get_high_score(Some(b"abc")), 0);
    assert_eq!(get_high_score(Some(b"12a")), 0);
    assert_eq!(get_high_score(Some(b"12\n")), 0);
    assert_eq!(get_high_score(Some(b" 12")), 0);
    assert_eq!(get_high_score(Some(b"-12")), 0);
    assert_eq!(get_high_score(Some(b"+")), 0);
    assert_eq!(get_high_score(Some(b"1.5")), 0);
    assert_eq!(get_high_score(Some(&[0xff, 0xfe])), 0);
}

#[test]
fn numbers_are_read_in_decimal() {
    assert_eq!(parse_high_score(b"0"), Some(0));
    assert_eq!(parse_high_score(b"007"), Some(7));
    assert_eq!(parse_high_score(b"+42"), Some(42));
    assert_eq!(parse_high_score(b"270"), Some(270));
    assert_eq!(parse_high_score(b"18446744073709551615"), Some(u64::MAX));
    assert_eq!(parse_high_score(b"18446744073709551616"), None);
    assert_eq!(parse_high_score(b"99999999999999999999999"), None);
    assert_eq!(parse_high_score(b"++1"), None);
    assert_eq!(parse_high_score(b""), None);
}

#[test]
fn numbers_are_written_in_decimal() {
    assert_eq!(format_decimal(0), b"0".to_vec());
    assert_eq!(format_decimal(9), b"9".to_vec());
    assert_eq!(format_decimal(10), b"10".to_vec());
    assert_eq!(format_decimal(1_050), b"1050".to_vec());
    assert_eq!(format_decimal(u64::MAX), b"18446744073709551615".to_vec());
}

#[test]
fn what_is_written_is_read_back() {
    for score in [0u64, 1, 9, 10, 99, 100, 12_345, 4_294_967_296, u64::MAX - 1, u64::MAX] {
        let text = format_decimal(score);
        assert_eq!(parse_high_score(&text), Some(score));
        assert_eq!(get_high_score(Some(&text)), score);
    }
}
