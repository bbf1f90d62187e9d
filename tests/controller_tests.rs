use chrono_tz::America::Los_Angeles;
use chrono_tz::Asia::Kolkata;
use tzgrid::{
    date_from_parts, header_matches, load_catalog, parse_reference_date, top_matches, CityIndex, CivilDate,
    Controller, DateInputError, DatasetLoadError, StartError,
};

const CITIES: &str = "City,Country,Timezone\n\
Bangalore,India,Asia/Kolkata\n\
Mountain View,United States,America/Los_Angeles\n\
Mumbai,India,Asia/Kolkata\n\
London,United Kingdom,Europe/London\n\
Berlin,Germany,Europe/Berlin\n\
Bangkok,Thailand,Asia/Bangkok\n\
Boston,United States,America/New_York\n";

fn seed() -> CivilDate {
    CivilDate::new(2021, 7, 18).unwrap()
}

fn start() -> Controller {
    Controller::new(CITIES, seed(), Kolkata, Los_Angeles).unwrap()
}

#[test]
fn catalog_reads_records_in_order() {
    let c = load_catalog(CITIES).unwrap();
    assert_eq!(c.len(), 7);
    assert_eq!(c[0].city, "Bangalore");
    assert_eq!(c[0].country, "India");
    assert_eq!(c[0].timezone, "Asia/Kolkata");
    assert_eq!(c[6].timezone, "America/New_York");
}

#[test]
fn catalog_with_wrong_field_count_is_refused() {
    let text = "City,Country,Timezone\nBangalore,India,Asia/Kolkata\nNowhere,Land\n";
    assert_eq!(load_catalog(text).unwrap_err(), DatasetLoadError::Malformed);
    let rows = vec![
        vec!["A".to_string(), "B".to_string(), "C".to_string()],
        vec!["D".to_string()],
    ];
    assert_eq!(tzgrid::records_from_rows(&rows).unwrap_err(), DatasetLoadError::FieldCount { record: 1 });
    let text2 = "City,Country\nBangalore,India\n";
    assert_eq!(load_catalog(text2).unwrap_err(), DatasetLoadError::BadHeader);
    assert!(matches!(
        Controller::new(text2, seed(), Kolkata, Los_Angeles),
        Err(StartError::Dataset(DatasetLoadError::BadHeader))
    ));
}

#[test]
fn catalog_with_wrong_header_is_refused() {
    let text = "Town,Country,Timezone\nBangalore,India,Asia/Kolkata\n";
    assert_eq!(load_catalog(text).unwrap_err(), DatasetLoadError::BadHeader);
    assert_eq!(load_catalog("").unwrap_err(), DatasetLoadError::BadHeader);
    assert!(header_matches(&vec!["City".to_string(), "Country".to_string(), "Timezone".to_string()]));
    assert!(!header_matches(&vec!["City".to_string(), "Country".to_string()]));
    assert!(!header_matches(&vec!["City".to_string(), "Country".to_string(), "Zone".to_string()]));
}

#[test]
fn record_label() {
    let c = load_catalog(CITIES).unwrap();
    assert_eq!(c[1].label(), "Mountain View, United States, America/Los_Angeles");
}

#[test]
fn empty_catalog_is_fine() {
    let c = load_catalog("City,Country,Timezone\n").unwrap();
    assert!(c.is_empty());
}

#[test]
fn controller_starts_on_seed() {
    let c = start();
    assert_eq!(c.date, seed());
    assert_eq!(c.grid.rows.len(), 24);
    assert_eq!(c.grid.rows[0].primary.trim(), "9:00 AM 18 Jul");
    assert!(c.results.is_empty());
    assert_eq!(c.catalog.len(), 7);
}

#[test]
fn invalid_date_leaves_state_unchanged() {
    let mut c = start();
    let before_rows: Vec<String> = c.grid.rows.iter().map(|r| r.primary.clone()).collect();
    assert_eq!(c.on_date_changed("not-a-date"), Err(DateInputError::InvalidDateInput));
    assert_eq!(c.date, seed());
    let after_rows: Vec<String> = c.grid.rows.iter().map(|r| r.primary.clone()).collect();
    assert_eq!(before_rows, after_rows);
    assert_eq!(c.on_date_changed("2021-02-30"), Err(DateInputError::InvalidDateInput));
    assert_eq!(c.date, seed());
}

#[test]
fn valid_date_recomputes_grid() {
    let mut c = start();
    assert_eq!(c.on_date_changed("2022-01-05"), Ok(()));
    assert_eq!(c.date, CivilDate::new(2022, 1, 5).unwrap());
    assert_eq!(c.grid.rows[0].primary.trim(), "9:00 AM  5 Jan");
    assert_eq!(c.grid.rows[0].secondary.trim(), "7:30 PM  4 Jan");
    assert_eq!(c.on_date_changed("0000-07-18"), Ok(()));
    assert_eq!(c.date, CivilDate::new(0, 7, 18).unwrap());
}

#[test]
fn parse_reference_date_cases() {
    assert_eq!(parse_reference_date("2021-07-18"), Ok(seed()));
    assert_eq!(parse_reference_date(""), Err(DateInputError::InvalidDateInput));
    assert_eq!(parse_reference_date("2021-13-18"), Err(DateInputError::InvalidDateInput));
    assert_eq!(parse_reference_date("0000-07-18"), Ok(CivilDate::new(0, 7, 18).unwrap()));
    assert_eq!(parse_reference_date("+12021-07-18"), Ok(CivilDate::new(12021, 7, 18).unwrap()));
    assert_eq!(date_from_parts(Some((2021, 7, 18))), Ok(seed()));
    assert_eq!(date_from_parts(Some((0, 7, 18))), Ok(CivilDate::new(0, 7, 18).unwrap()));
    assert_eq!(date_from_parts(Some((300000, 7, 18))), Err(DateInputError::InvalidDateInput));
    assert_eq!(date_from_parts(None), Err(DateInputError::InvalidDateInput));
}

#[test]
fn empty_search_clears_results() {
    let mut c = start();
    c.on_search_text_changed("bangalore");
    assert!(!c.results.is_empty());
    c.on_search_text_changed("");
    assert!(c.results.is_empty());
}

#[test]
fn search_finds_city() {
    let mut c = start();
    c.on_search_text_changed("bangalor");
    assert!(c.results.len() <= 5);
    assert_eq!(c.results[0], 0);
}

#[test]
fn search_twice_gives_same_results() {
    let mut c = start();
    c.on_search_text_changed("india");
    let first = c.results.clone();
    c.on_search_text_changed("india");
    assert_eq!(first, c.results);
    assert!(first.contains(&0) && first.contains(&2));
}

#[test]
fn search_keeps_at_most_five() {
    let index = CityIndex::build(&load_catalog(CITIES).unwrap());
    let r = index.query("a");
    assert!(r.len() <= 5);
    assert!(r.iter().all(|&i| i < 7));
    assert!(index.query("").is_empty());
    assert!(!index.query("bangalore").is_empty());
    assert_eq!(index.query("zzzzzzzzzzzz").len(), 0);
    assert_eq!(top_matches(&vec![6, 5, 4, 3, 2, 1, 0]), vec![6, 5, 4, 3, 2]);
    assert_eq!(top_matches(&vec![3, 1]), vec![3, 1]);
    assert_eq!(top_matches(&vec![]), Vec::<usize>::new());
}

#[test]
fn apply_search_uses_ranking() {
    let mut c = start();
    c.apply_search("x", &vec![4, 3, 2, 1, 0, 5]);
    assert_eq!(c.results, vec![4, 3, 2, 1, 0]);
    c.apply_search("", &vec![4]);
    assert!(c.results.is_empty());
}
