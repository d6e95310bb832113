use nixpkgs_track::time::Timestamp;

fn at(secs: i64, nanos: u32) -> Timestamp {
    Timestamp { secs, nanos }
}

#[test]
fn rfc3339_writes_utc_dates() {
    assert_eq!(at(0, 0).to_rfc3339(), Some("1970-01-01T00:00:00+00:00".to_string()));
    assert_eq!(at(1_431_648_000, 0).to_rfc3339(), Some("2015-05-15T00:00:00+00:00".to_string()));
    assert_eq!(at(-1, 0).to_rfc3339(), Some("1969-12-31T23:59:59+00:00".to_string()));
    assert_eq!(at(1_704_067_200, 500_000_000).to_rfc3339(), Some("2024-01-01T00:00:00.500+00:00".to_string()));
}

#[test]
fn rfc3339_has_no_text_outside_the_calendar() {
    assert_eq!(at(i64::MAX, 0).to_rfc3339(), None);
    assert_eq!(at(i64::MIN, 0).to_rfc3339(), None);
    assert_eq!(at(0, 2_000_000_000).to_rfc3339(), None);
}

#[test]
fn rfc3339_agrees_with_chrono() {
    for (secs, nanos) in [(0i64, 0u32), (1, 1), (951_782_400, 0), (4_102_444_799, 999_999_999), (-86_400, 0)] {
        let expected = chrono::DateTime::from_timestamp(secs, nanos).map(|t| t.to_rfc3339());
        assert_eq!(at(secs, nanos).to_rfc3339(), expected);
    }
}

#[test]
fn seconds_since_counts_whole_seconds() {
    assert_eq!(at(100, 0).seconds_since(&at(40, 0)), Some(60));
    assert_eq!(at(100, 0).seconds_since(&at(100, 0)), Some(0));
    assert_eq!(at(100, 999_999_999).seconds_since(&at(100, 0)), Some(0));
    assert_eq!(at(101, 0).seconds_since(&at(100, 1)), Some(0));
    assert_eq!(at(101, 1).seconds_since(&at(100, 1)), Some(1));
}

#[test]
fn seconds_since_rounds_towards_zero_when_negative() {
    assert_eq!(at(40, 0).seconds_since(&at(100, 0)), Some(-60));
    assert_eq!(at(9, 500_000_000).seconds_since(&at(10, 0)), Some(0));
    assert_eq!(at(8, 500_000_000).seconds_since(&at(10, 0)), Some(-1));
    assert_eq!(at(10, 0).seconds_since(&at(10, 1)), Some(0));
}

#[test]
fn seconds_since_agrees_with_chrono() {
    let samples = [(0i64, 0u32), (10, 0), (9, 500_000_000), (8, 999_999_999), (1_704_067_200, 1), (-5, 7)];
    for (ls, ln) in samples {
        for (es, en) in samples {
            let later = chrono::DateTime::from_timestamp(ls, ln).unwrap();
            let earlier = chrono::DateTime::from_timestamp(es, en).unwrap();
            assert_eq!(
                at(ls, ln).seconds_since(&at(es, en)),
                Some(later.signed_duration_since(earlier).num_seconds()),
                "{:?} since {:?}",
                (ls, ln),
                (es, en)
            );
        }
    }
}

#[test]
fn seconds_since_has_no_answer_beyond_64_bits() {
    assert_eq!(at(i64::MAX, 0).seconds_since(&at(-1, 0)), None);
    assert_eq!(at(i64::MIN, 0).seconds_since(&at(1, 0)), None);
    assert_eq!(at(i64::MAX, 0).seconds_since(&at(0, 0)), Some(i64::MAX));
    assert_eq!(at(i64::MIN, 0).seconds_since(&at(0, 0)), Some(i64::MIN));
    assert_eq!(at(i64::MAX, 0).seconds_since(&at(i64::MIN, 0)), None);
}

#[test]
fn leap_second_counts_as_a_second() {
    // 00:01:01 since the leap second after 00:00:59, two tenths into it.
    assert_eq!(at(61, 0).seconds_since(&at(59, 1_200_000_000)), Some(1));
    assert_eq!(at(59, 1_200_000_000).seconds_since(&at(61, 0)), Some(-1));
    assert_eq!(at(59, 1_000_000_000).seconds_since(&at(59, 0)), Some(1));
    assert_eq!(at(59, 1_500_000_000).seconds_since(&at(59, 0)), Some(1));
    assert_eq!(at(59, 1_000_000_000).seconds_since(&at(0, 0)), Some(60));
    assert_eq!(at(60, 0).seconds_since(&at(59, 1_000_000_000)), Some(1));
    assert_eq!(at(120, 0).seconds_since(&at(59, 1_500_000_000)), Some(60));
    assert_eq!(at(3_600 + 59, 1_000_000_000).seconds_since(&at(59, 1_000_000_000)), Some(3_601));
}

#[test]
fn seconds_since_agrees_with_chrono_on_leap_seconds() {
    let samples = [
        (0i64, 0u32),
        (58, 999_999_999),
        (59, 0),
        (59, 999_999_999),
        (59, 1_000_000_000),
        (59, 1_200_000_000),
        (59, 1_999_999_999),
        (60, 0),
        (61, 0),
        (119, 1_500_000_000),
        (120, 1),
        (86_399, 0),
        (86_399, 1_000_000_000),
        (86_399, 1_999_999_999),
        (86_400, 0),
        (86_401, 500_000_000),
        (86_459, 1_750_000_000),
        (172_799, 1_000_000_000),
        (-1, 0),
        (-1, 1_500_000_000),
        (-2, 999_999_999),
        (-86_341, 1_250_000_000),
        (-86_400, 0),
        (-86_401, 1_000_000_001),
        (1_704_067_199, 1_999_999_999),
        (1_704_067_200, 0),
        (-62_135_596_800, 0),
        (253_402_300_799, 1_999_999_999),
    ];
    for (ls, ln) in samples {
        for (es, en) in samples {
            let later = chrono::DateTime::from_timestamp(ls, ln).unwrap();
            let earlier = chrono::DateTime::from_timestamp(es, en).unwrap();
            assert_eq!(
                at(ls, ln).seconds_since(&at(es, en)),
                Some(later.signed_duration_since(earlier).num_seconds()),
                "{:?} since {:?}",
                (ls, ln),
                (es, en)
            );
        }
    }
}

#[test]
fn seconds_since_agrees_with_chrono_on_a_grid() {
    let mut seconds = vec![];
    for day in [-3i64, -1, 0, 1, 19_723] {
        for second in [0i64, 1, 58, 59, 60, 3_599, 3_659, 43_200, 86_339, 86_398, 86_399] {
            seconds.push(day * 86_400 + second);
        }
    }
    let mut moments = vec![];
    for secs in seconds {
        for nanos in [0u32, 1, 500_000_000, 999_999_999, 1_000_000_000, 1_000_000_001, 1_999_999_999] {
            if chrono::DateTime::from_timestamp(secs, nanos).is_some() {
                moments.push((secs, nanos));
            }
        }
    }
    assert!(moments.len() > 250);
    for &(ls, ln) in &moments {
        for &(es, en) in &moments {
            let later = chrono::DateTime::from_timestamp(ls, ln).unwrap();
            let earlier = chrono::DateTime::from_timestamp(es, en).unwrap();
            assert_eq!(
                at(ls, ln).seconds_since(&at(es, en)),
                Some(later.signed_duration_since(earlier).num_seconds()),
                "{:?} since {:?}",
                (ls, ln),
                (es, en)
            );
        }
    }
}
