//! A dual-timezone hour grid with a fuzzy city lookup.
//!
//! `date` holds the calendar model, `grid` turns a reference date into
//! 24 hourly rows shown in two zones, `catalog` reads the city dataset,
//! `search` ranks cities for a typed query and `controller` ties them
//! together behind two events.
mod catalog;
mod controller;
mod date;
mod grid;
mod search;

pub use catalog::{header_matches, load_catalog, records_from_rows, CityRecord, DatasetLoadError};
pub use controller::{
    date_from_parts, lemma_search_idempotent, parse_reference_date, Controller, DateInputError,
    StartError,
};
pub use date::{days_in_month, is_leap_year, CivilDate};
pub use grid::{
    generate, lemma_grid_offsets_increasing, lemma_zone_round_trip, rows_from_anchor,
    zone_gap_seconds, HourGrid, HourRow, ANCHOR_HOUR, CLOCK_PATTERN, GRID_ROWS, MAX_INSTANT,
    MIN_INSTANT,
};
pub use search::{top_matches, CityIndex, MAX_RESULTS};
