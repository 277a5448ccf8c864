use nano_recorder::utils::{convert_time, generate, key_from_indices, CHARSET, PASSWORD_LEN};

#[test]
fn convert_time_splits_minutes_and_seconds() {
    assert_eq!(convert_time(125_000), vec![2, 5]);
    assert_eq!(convert_time(61_000), vec![1, 1]);
    assert_eq!(convert_time(3_600_000), vec![60, 0]);
}

#[test]
fn convert_time_keeps_less_than_a_minute_as_seconds() {
    assert_eq!(convert_time(0), vec![0, 0]);
    assert_eq!(convert_time(999), vec![0, 0]);
    assert_eq!(convert_time(45_500), vec![0, 45]);
    assert_eq!(convert_time(59_999), vec![0, 59]);
}

#[test]
fn convert_time_one_minute_is_a_minute() {
    assert_eq!(convert_time(60_000), vec![1, 0]);
    assert_eq!(convert_time(60_999), vec![1, 0]);
}

#[test]
fn convert_time_rounds_negative_toward_zero() {
    assert_eq!(convert_time(-1_500), vec![0, -1]);
    assert_eq!(convert_time(-999), vec![0, 0]);
    assert_eq!(convert_time(i64::MIN), vec![0, i64::MIN / 1000]);
}

#[test]
fn convert_time_largest_input() {
    let secs = i64::MAX / 1000;
    assert_eq!(convert_time(i64::MAX), vec![secs / 60, secs % 60]);
}

#[test]
fn generated_key_is_thirty_alphanumerics() {
    for _ in 0..20 {
        let key = generate();
        assert_eq!(key.chars().count(), PASSWORD_LEN);
        assert!(key.chars().all(|c| c.is_ascii_alphanumeric()));
    }
}

#[test]
fn generated_keys_differ() {
    // 62^30 possible keys: two draws agreeing would point at a broken source.
    let a = generate();
    let b = generate();
    assert_ne!(a, b);
}

#[test]
fn key_from_indices_spells_charset() {
    assert_eq!(key_from_indices(&vec![0, 25, 26, 51, 52, 61]), "AZaz09");
    assert_eq!(key_from_indices(&vec![]), "");
    assert_eq!(CHARSET.len(), 62);
}
