use chrono_tz::America::Los_Angeles;
use chrono_tz::Asia::Kolkata;
use tzgrid::{generate, is_leap_year, days_in_month, rows_from_anchor, zone_gap_seconds, CivilDate};

fn date(y: i32, m: u32, d: u32) -> CivilDate {
    CivilDate::new(y, m, d).unwrap()
}

#[test]
fn calendar_rules() {
    assert!(is_leap_year(2024));
    assert!(!is_leap_year(1900));
    assert!(is_leap_year(2000));
    assert_eq!(days_in_month(2021, 2), 28);
    assert_eq!(days_in_month(2020, 2), 29);
    assert_eq!(days_in_month(2021, 4), 30);
    assert_eq!(days_in_month(2021, 7), 31);
}

#[test]
fn civil_date_rejects_impossible_days() {
    assert!(CivilDate::new(2021, 2, 29).is_none());
    assert!(CivilDate::new(2021, 13, 1).is_none());
    assert!(CivilDate::new(2021, 0, 1).is_none());
    assert!(CivilDate::new(2021, 7, 0).is_none());
    assert!(CivilDate::new(262143, 1, 1).is_none());
    assert!(CivilDate::new(-262144, 12, 31).is_none());
    assert!(CivilDate::new(0, 2, 29).is_some());
    assert!(CivilDate::new(12021, 7, 18).is_some());
    assert!(CivilDate::new(-262143, 1, 1).is_some());
    assert!(CivilDate::new(262142, 12, 31).is_some());
    assert_eq!(CivilDate::new(2020, 2, 29), Some(CivilDate { year: 2020, month: 2, day: 29 }));
}

#[test]
fn grid_has_24_rows_in_order() {
    let g = generate(date(2021, 7, 18), Kolkata, Los_Angeles).unwrap();
    assert_eq!(g.rows.len(), 24);
    for (i, row) in g.rows.iter().enumerate() {
        assert_eq!(row.offset_hours as usize, i);
    }
}

#[test]
fn seed_date_first_row() {
    let g = generate(date(2021, 7, 18), Kolkata, Los_Angeles).unwrap();
    assert_eq!(g.rows[0].primary.trim(), "9:00 AM 18 Jul");
    assert_eq!(g.rows[0].primary, " 9:00 AM 18 Jul");
    assert_eq!(g.rows[0].secondary.trim(), "8:30 PM 17 Jul");
    // 09:00 IST is 03:30 UTC.
    assert_eq!(g.anchor, 1626579000);
    // IST is UTC+5:30, PDT is UTC-7: the secondary clock runs 12.5 hours behind.
    assert_eq!(zone_gap_seconds(Kolkata, Los_Angeles, g.anchor), 45000);
    assert_eq!(g.rows[23].primary.trim(), "8:00 AM 19 Jul");
    assert_eq!(g.rows[23].secondary.trim(), "7:30 PM 18 Jul");
}

#[test]
fn grid_crosses_daylight_saving_start() {
    // Los Angeles moves from 02:00 PST to 03:00 PDT on 2021-03-14 (10:00 UTC).
    let g = generate(date(2021, 3, 14), Kolkata, Los_Angeles).unwrap();
    assert_eq!(g.rows[6].primary.trim(), "3:00 PM 14 Mar");
    assert_eq!(g.rows[6].secondary.trim(), "1:30 AM 14 Mar");
    assert_eq!(g.rows[7].primary.trim(), "4:00 PM 14 Mar");
    assert_eq!(g.rows[7].secondary.trim(), "3:30 AM 14 Mar");
    // The gap between the zones is 13.5 hours before the switch and 12.5 after.
    assert_eq!(zone_gap_seconds(Kolkata, Los_Angeles, g.anchor), 48600);
    assert_eq!(zone_gap_seconds(Kolkata, Los_Angeles, g.anchor + 7 * 3600), 45000);
}

#[test]
fn grid_crosses_daylight_saving_end() {
    // Los Angeles repeats 01:00 to 02:00 on 2021-11-07 (PDT ends at 09:00 UTC).
    let g = generate(date(2021, 11, 7), Kolkata, Los_Angeles).unwrap();
    // Anchor 03:30 UTC, so row 5 is 08:30 UTC and row 6 is 09:30 UTC.
    assert_eq!(g.rows[5].secondary.trim(), "1:30 AM  7 Nov");
    assert_eq!(g.rows[6].secondary.trim(), "1:30 AM  7 Nov");
}

#[test]
fn skipped_local_hour_gives_no_grid() {
    // Los Angeles shows 09:00 every day, so a grid anchored there exists...
    assert!(generate(date(2021, 3, 14), Los_Angeles, Kolkata).is_some());
    // ...and rows step by absolute hours from any anchor.
    let rows = rows_from_anchor(0, Kolkata, Los_Angeles);
    assert_eq!(rows.len(), 24);
    assert_eq!(rows[0].primary.trim(), "5:30 AM  1 Jan");
    assert_eq!(rows[0].secondary.trim(), "4:00 PM 31 Dec");
}

#[test]
fn round_trip_through_secondary_zone() {
    let g = generate(date(2021, 7, 18), Kolkata, Los_Angeles).unwrap();
    let back = generate(date(2021, 7, 18), Kolkata, Kolkata).unwrap();
    assert_eq!(g.anchor, back.anchor);
    assert_eq!(g.rows[3].primary, back.rows[3].secondary);
}

#[test]
fn far_years_have_grids() {
    let g = generate(date(12021, 7, 18), Kolkata, Los_Angeles).unwrap();
    assert_eq!(g.rows.len(), 24);
    assert!(g.rows[0].primary.contains("18 Jul"));
    let g0 = generate(date(0, 7, 18), Kolkata, Los_Angeles).unwrap();
    assert!(g0.rows[0].primary.contains("18 Jul"));
}

#[test]
fn grid_at_the_ends_of_chrono_range_is_refused() {
    assert!(generate(date(262142, 12, 31), Kolkata, Los_Angeles).is_none());
    assert!(generate(date(-262143, 1, 1), Kolkata, Los_Angeles).is_none());
    assert!(generate(date(262142, 12, 1), Kolkata, Los_Angeles).is_some());
}
