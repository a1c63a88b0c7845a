use chrono::TimeZone;
use phototime::calendar::TimestampCandidate;
use phototime::calendar::candidate_utc_secs;
use phototime::instant::Instant;
use phototime::range::DateTimeRange;

#[test]
fn containment_boundaries() {
    let begin = Instant::new(100, 0);
    let end = Instant::new(200, 0);
    let range = DateTimeRange::new(begin, end, String::from("UTC"));
    assert!(range.contains(&begin));
    assert!(!range.contains(&end));
    // one nanosecond before begin
    assert!(!range.contains(&Instant::new(99, 999_999_999)));
    // one nanosecond before end
    assert!(range.contains(&Instant::new(199, 999_999_999)));
    assert!(range.contains(&Instant::new(150, 123)));
    assert!(!range.contains(&Instant::new(201, 0)));
}

#[test]
fn timezone_returns_the_stored_name() {
    let range = DateTimeRange::new(
        Instant::new(0, 0),
        Instant::new(1, 0),
        String::from("America/Los_Angeles"),
    );
    assert_eq!(range.timezone().as_str(), "America/Los_Angeles");
}

#[test]
fn truncation_to_minute() {
    assert_eq!(Instant::new(125, 999_999_999).truncate_to_minute(), Instant::new(120, 0));
    assert_eq!(Instant::new(120, 0).truncate_to_minute(), Instant::new(120, 0));
    assert_eq!(Instant::new(59, 1).truncate_to_minute(), Instant::new(0, 0));
    // floor, not rounding toward zero, on pre-epoch instants
    assert_eq!(Instant::new(-61, 5).truncate_to_minute(), Instant::new(-120, 0));
    assert_eq!(Instant::new(-60, 0).truncate_to_minute(), Instant::new(-60, 0));
}

#[test]
fn instant_ordering() {
    let a = Instant::new(10, 5);
    let b = Instant::new(10, 6);
    let c = Instant::new(11, 0);
    assert!(a.lt(&b));
    assert!(b.lt(&c));
    assert!(!c.lt(&a));
    assert!(a.le(&a));
}

#[test]
fn calendar_conversion_matches_chrono() {
    let cases = vec![
        (1970, 1, 1, 0, 0, 0),
        (2023, 7, 15, 17, 1, 31),
        (2023, 7, 31, 0, 0, 0),
        (2000, 2, 29, 23, 59, 59),
        (1969, 12, 31, 23, 59, 59),
        (1000, 1, 1, 0, 0, 0),
        (9999, 12, 31, 23, 59, 59),
    ];
    for (y, mo, d, h, mi, s) in cases {
        let c = TimestampCandidate::new(y, mo, d, h, mi, s).unwrap();
        let expected = chrono::Utc
            .with_ymd_and_hms(y as i32, mo as u32, d as u32, h as u32, mi as u32, s as u32)
            .unwrap()
            .timestamp();
        assert_eq!(candidate_utc_secs(&c), expected, "{}-{}-{} {}:{}:{}", y, mo, d, h, mi, s);
    }
}

#[test]
fn display_matches_the_zoned_rendering() {
    let tz: chrono_tz::Tz = "America/Los_Angeles".parse().unwrap();
    let begin = tz.with_ymd_and_hms(2023, 7, 30, 17, 0, 0).unwrap();
    let end = tz.with_ymd_and_hms(2023, 7, 30, 19, 0, 0).unwrap();
    let range = DateTimeRange::new(
        Instant::new(begin.timestamp(), 0),
        Instant::new(end.timestamp(), 0),
        String::from("America/Los_Angeles"),
    );
    assert_eq!(range.to_display_string(), format!("[{} - {})", begin, end));
}

#[test]
fn display_of_an_unknown_zone_falls_back_to_plain_form() {
    let range = DateTimeRange::new(
        Instant::new(100, 0),
        Instant::new(200, 7),
        String::from("Not/A_Zone"),
    );
    assert_eq!(range.to_display_string(), "[100s+0ns - 200s+7ns)");
}
