use xsay::decimal::{parse_u64, u64_to_decimal, u64_to_padded};
use xsay::history::{civil_from_days, format_utc, recent_entries, HistoryEntry};

#[test]
fn parse_u64_follows_from_str() {
    for s in ["0", "42", "+7", "0007", "18446744073709551615", "", "+", "-1", "12a", " 1", "18446744073709551616"] {
        assert_eq!(parse_u64(s), s.parse::<u64>().ok(), "{s}");
    }
}

#[test]
fn decimal_round_trip() {
    for n in [0u64, 9, 10, 1234567890, u64::MAX] {
        let s = u64_to_decimal(n);
        assert_eq!(s, n.to_string());
        assert_eq!(parse_u64(&s), Some(n));
    }
}

#[test]
fn zero_padding() {
    assert_eq!(u64_to_padded(7, 2), "07");
    assert_eq!(u64_to_padded(1970, 4), "1970");
    assert_eq!(u64_to_padded(12345, 4), "12345");
    assert_eq!(u64_to_padded(0, 3), "000");
}

#[test]
fn epoch_and_known_dates() {
    assert_eq!(civil_from_days(0), (1970, 1, 1));
    assert_eq!(civil_from_days(31), (1970, 2, 1));
    assert_eq!(civil_from_days(11016), (2000, 2, 29));
    assert_eq!(civil_from_days(19723), (2024, 1, 1));
    assert_eq!(civil_from_days(19782), (2024, 2, 29));
    assert_eq!(civil_from_days(-1), (1969, 12, 31));
    assert_eq!(civil_from_days(-719468), (0, 3, 1));
    assert_eq!(civil_from_days(-719469), (0, 2, 29));
}

#[test]
fn utc_formatting() {
    assert_eq!(format_utc(0), "1970-01-01 00:00 UTC");
    assert_eq!(format_utc(1_700_000_000), "2023-11-14 22:13 UTC");
    assert_eq!(format_utc(951_782_400), "2000-02-29 00:00 UTC");
    assert_eq!(format_utc(-5), "1970-01-01 00:00 UTC");
}

#[test]
fn recent_entries_newest_first() {
    let all: Vec<HistoryEntry> = (1..=5)
        .map(|i| HistoryEntry { timestamp: i, text: format!("t{i}") })
        .collect();
    let r = recent_entries(all.clone(), 3);
    let ts: Vec<i64> = r.iter().map(|e| e.timestamp).collect();
    assert_eq!(ts, vec![5, 4, 3]);
    assert_eq!(r[0].text, "t5");
    let r = recent_entries(all.clone(), 10);
    assert_eq!(r.len(), 5);
    assert_eq!(r[4].timestamp, 1);
    assert!(recent_entries(all, 0).is_empty());
}
