use phototime::calendar::TimestampCandidate;
use phototime::extract::parse_date_from_filename;

fn cand(year: u16, month: u8, day: u8, hour: u8, minute: u8, second: u8) -> TimestampCandidate {
    TimestampCandidate::new(year, month, day, hour, minute, second).unwrap()
}

#[test]
fn test_parse_date_from_filename() {
    let tests = vec![
        // These are in local time (and correct)
        (
            "Screenshot_20230715_095113_CluedUpp Geogames.jpg",
            cand(2023, 07, 15, 09, 51, 13),
        ),
        // These are in UTC (need adjusting)
        (
            "PXL_20230715_170131447.jpg",
            cand(2023, 07, 15, 17, 01, 31),
        ),
        (
            "Screenshot_20230715-172906.png",
            cand(2023, 07, 15, 17, 29, 06),
        ),
        (
            "Screenshot_20230715-210645.png",
            cand(2023, 07, 15, 21, 06, 45),
        ),
    ];

    for (filename, expected) in tests {
        assert_eq!(
            parse_date_from_filename(filename.as_bytes()),
            Some(expected),
            "filename: {}",
            filename
        );
    }
}

#[test]
fn pattern_embedded_in_surrounding_text_round_trips() {
    // The shape may sit anywhere in the text; the fields come back exactly.
    let cases = vec![
        ("x19991231-2359590", (1999, 12, 31, 23, 59, 59)),
        ("album 20000229_000000 (leap day)", (2000, 2, 29, 0, 0, 0)),
        ("123420230715_095113", (2023, 7, 15, 9, 51, 13)),
        ("10000101-000000", (1000, 1, 1, 0, 0, 0)),
    ];
    for (filename, (y, mo, d, h, mi, s)) in cases {
        assert_eq!(
            parse_date_from_filename(filename.as_bytes()),
            Some(cand(y, mo, d, h, mi, s)),
            "filename: {}",
            filename
        );
    }
}

#[test]
fn no_match_cases_yield_nothing() {
    let cases = vec![
        "",
        "IMG_1234.jpg",
        // fewer than the fourteen digits the shape needs
        "Screenshot_2023715-09511.png",
        // wrong separator
        "20230715T095113.jpg",
        "20230715.095113.jpg",
        "20230715 095113.jpg",
        // no separator at all
        "20230715095113.jpg",
        // calendar-invalid digit runs
        "20231315_095113.jpg", // month 13
        "20230732_095113.jpg", // day 32
        "20230715_255113.jpg", // hour 25
        "20230715_096013.jpg", // minute 60
        "20230715_095160.jpg", // second 60
        "20230229_095113.jpg", // Feb 29 of a non-leap year
        "20230200_095113.jpg", // day 0
        "20230015_095113.jpg", // month 0
    ];
    for filename in cases {
        assert_eq!(
            parse_date_from_filename(filename.as_bytes()),
            None,
            "filename: {}",
            filename
        );
    }
}

#[test]
fn earliest_occurrence_wins() {
    // Two well-formed occurrences: the earlier one is taken.
    assert_eq!(
        parse_date_from_filename("20230715_095113_20231224_181920.jpg".as_bytes()),
        Some(cand(2023, 7, 15, 9, 51, 13))
    );
}

#[test]
fn invalid_earliest_occurrence_is_not_skipped() {
    // The earliest occurrence of the shape has an invalid month, so there is
    // no candidate at all: a later valid occurrence is not searched for.
    assert_eq!(
        parse_date_from_filename("20231399-123456_20230715_095113.jpg".as_bytes()),
        None
    );
}

#[test]
fn leap_year_rules_apply() {
    assert_eq!(
        parse_date_from_filename("20240229_120000".as_bytes()),
        Some(cand(2024, 2, 29, 12, 0, 0))
    );
    // 1900 is not a leap year (century rule), 2000 is (400-year rule).
    assert_eq!(parse_date_from_filename("19000229_120000".as_bytes()), None);
    assert_eq!(
        parse_date_from_filename("20000229_120000".as_bytes()),
        Some(cand(2000, 2, 29, 12, 0, 0))
    );
}

#[test]
fn candidate_construction_validates() {
    assert!(TimestampCandidate::new(2023, 7, 15, 9, 51, 13).is_some());
    assert!(TimestampCandidate::new(2023, 13, 1, 0, 0, 0).is_none());
    assert!(TimestampCandidate::new(2023, 4, 31, 0, 0, 0).is_none());
    assert!(TimestampCandidate::new(2023, 7, 15, 24, 0, 0).is_none());
    assert!(TimestampCandidate::new(2023, 7, 15, 0, 60, 0).is_none());
    assert!(TimestampCandidate::new(2023, 7, 15, 0, 0, 60).is_none());
}
