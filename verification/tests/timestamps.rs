//! Timestamps.

use agent_session::timestamp::{civil_to_millis, parse_iso_to_millis, parse_rfc3339_millis};

#[test]
fn parse_rfc3339_millis_basic() -> Result<(), String> {
    let ts = "2025-01-01T00:00:00.000Z";
    let millis = parse_rfc3339_millis(ts).ok_or("valid basic RFC3339 timestamp")?;
    assert_eq!(millis, 1_735_689_600_000);
    Ok(())
}

#[test]
fn parse_rfc3339_millis_with_fractional() -> Result<(), String> {
    let ts = "2025-01-01T12:30:45.123Z";
    let millis = parse_rfc3339_millis(ts).ok_or("valid fractional RFC3339 timestamp")?;
    assert_eq!(millis, 1_735_734_645_123);
    Ok(())
}

#[test]
fn what_is_no_timestamp_is_no_boundary() {
    assert_eq!(parse_rfc3339_millis("yesterday"), None);
    assert_eq!(parse_iso_to_millis("yesterday"), 0);
    assert_eq!(parse_iso_to_millis("2025-03-00T00:00:00.000Z"), 0);
    assert_eq!(parse_iso_to_millis("2025-01-01T00:00:00.000Z"), 1_735_689_600_000);
}

#[test]
fn the_epoch_is_zero_and_days_follow_one_another() {
    assert_eq!(civil_to_millis(1970, 1, 1, 0, 0, 0, 0), Some(0));
    assert_eq!(civil_to_millis(1970, 1, 2, 0, 0, 0, 0), Some(86_400_000));
    assert_eq!(civil_to_millis(1969, 12, 31, 0, 0, 0, 0), Some(-86_400_000));
    let leap = civil_to_millis(2024, 2, 29, 0, 0, 0, 0).unwrap_or(0);
    let after = civil_to_millis(2024, 3, 1, 0, 0, 0, 0).unwrap_or(0);
    assert_eq!(after - leap, 86_400_000);
}

#[test]
fn an_earlier_time_has_the_smaller_number() {
    let early = parse_iso_to_millis("2024-12-31T23:59:59.999Z");
    let late = parse_iso_to_millis("2025-01-01T00:00:00.000Z");
    assert_eq!(late - early, 1);
}
