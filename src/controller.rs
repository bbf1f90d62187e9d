use chrono::Datelike;
use chrono_tz::Tz;
use std::str::FromStr;
use vstd::prelude::*;

use crate::catalog::{catalog_loads, catalog_outcome, load_catalog, CityRecord, DatasetLoadError};
use crate::date::{month_len, CivilDate};
use crate::grid::{generate, grid_of, has_grid, HourGrid};
use crate::search::{top_matches, top_of, CityIndex, MAX_RESULTS};

verus! {

/// Year, month and day of the date that chrono reads from `text`, or `None`.
pub uninterp spec fn parsed_date_of(text: Seq<char>) -> Option<(int, int, int)>;

/// Relies on chrono's `NaiveDate::from_str` (`year-month-day`): the parts of
/// the date it reads, which always name a real calendar day.
#[verifier::external_body]
fn parse_naive_date(text: &str) -> (r: Option<(i32, u32, u32)>)
    ensures
        r matches Some(p) ==> parsed_date_of(text@) == Some((p.0 as int, p.1 as int, p.2 as int))
            && 1 <= p.1 <= 12 && 1 <= p.2 <= month_len(p.0 as int, p.1 as int),
        r is None ==> parsed_date_of(text@) is None,
{
    chrono::NaiveDate::from_str(text).ok().map(|d| (d.year(), d.month(), d.day()))
}

/// Why a date event changed nothing.
#[derive(Clone, Copy, Debug, PartialEq, Eq, Structural)]
pub enum DateInputError {
    /// The text names no supported calendar date.
    InvalidDateInput,
    /// The primary zone does not show 09:00 exactly once on that date, or
    /// the day lies at the very end of the dates chrono holds.
    NoSuchLocalTime,
}

/// Why the controller could not start.
#[derive(Clone, Copy, Debug, PartialEq, Eq, Structural)]
pub enum StartError {
    /// The dataset could not be read.
    Dataset(DatasetLoadError),
    /// The primary zone does not show 09:00 exactly once on the seed date.
    NoSuchLocalTime,
}

/// The date that `parsed` (year, month, day) names, when it is a supported
/// calendar date.
pub open spec fn date_of_parts(parsed: Option<(int, int, int)>) -> Option<CivilDate> {
    match parsed {
        Some((y, m, d)) => {
            if i32::MIN <= y <= i32::MAX && 0 <= m <= u32::MAX && 0 <= d <= u32::MAX
                && (CivilDate { year: y as i32, month: m as u32, day: d as u32 }).valid() {
                Some(CivilDate { year: y as i32, month: m as u32, day: d as u32 })
            } else {
                None
            }
        },
        None => None,
    }
}

/// The reference date that the parts read from an input name; out of range
/// or missing parts are an invalid input.
pub fn date_from_parts(parsed: Option<(i32, u32, u32)>) -> (r: Result<CivilDate, DateInputError>)
    ensures
        match date_of_parts(match parsed { Some(p) => Some((p.0 as int, p.1 as int, p.2 as int)), None => None }) {
            Some(d) => r == Ok::<CivilDate, DateInputError>(d),
            None => r == Err::<CivilDate, DateInputError>(DateInputError::InvalidDateInput),
        },
{
    match parsed {
        Some((y, m, d)) => match CivilDate::new(y, m, d) {
            Some(date) => Ok(date),
            None => Err(DateInputError::InvalidDateInput),
        },
        None => Err(DateInputError::InvalidDateInput),
    }
}

/// Reads a reference date written `year-month-day`.
pub fn parse_reference_date(text: &str) -> (r: Result<CivilDate, DateInputError>)
    ensures
        match date_of_parts(parsed_date_of(text@)) {
            Some(d) => r == Ok::<CivilDate, DateInputError>(d) && d.valid(),
            None => r == Err::<CivilDate, DateInputError>(DateInputError::InvalidDateInput),
        },
{
    date_from_parts(parse_naive_date(text))
}

/// The results the controller shows after the search text `text`, given the
/// ranking `found` that the index produced for it.
pub open spec fn results_after(text: Seq<char>, found: Seq<usize>) -> Seq<usize> {
    if text.len() == 0 {
        Seq::empty()
    } else {
        top_of(found)
    }
}

/// The state behind the widget: the catalog and its index, the reference
/// date with its grid, and the results of the last search.
pub struct Controller {
    pub primary: Tz,
    pub secondary: Tz,
    pub catalog: Vec<CityRecord>,
    pub index: CityIndex,
    pub date: CivilDate,
    pub grid: HourGrid,
    pub results: Vec<usize>,
}

impl Controller {
    /// The date is valid and the grid is its grid, the index holds the
    /// catalog, and the results are at most five distinct record positions.
    pub open spec fn wf(self) -> bool {
        &&& self.date.valid()
        &&& grid_of(self.grid, self.date, self.primary, self.secondary)
        &&& self.index.holds(self.catalog@)
        &&& self.index.wf()
        &&& self.results@.len() <= MAX_RESULTS
        &&& self.results@.no_duplicates()
        &&& forall|i: int| 0 <= i < self.results@.len() ==> #[trigger] self.results@[i] < self.catalog@.len()
    }

    /// Reads the catalog from `text`, indexes it and lays out the grid of
    /// `seed`; no search has been made yet.
    pub fn new(text: &str, seed: CivilDate, primary: Tz, secondary: Tz) -> (r: Result<Controller, StartError>)
        requires
            seed.valid(),
        ensures
            match r {
                Ok(c) => {
                    &&& c.wf()
                    &&& catalog_outcome(text@, Ok(c.catalog))
                    &&& c.date == seed
                    &&& c.primary == primary
                    &&& c.secondary == secondary
                    &&& c.results@.len() == 0
                    &&& has_grid(seed, primary)
                },
                Err(StartError::Dataset(e)) => catalog_outcome(text@, Err(e)),
                Err(StartError::NoSuchLocalTime) => catalog_loads(text@) && !has_grid(seed, primary),
            },
    {
        let catalog = match load_catalog(text) {
            Ok(c) => c,
            Err(e) => return Err(StartError::Dataset(e)),
        };
        let index = CityIndex::build(&catalog);
        let grid = match generate(seed, primary, secondary) {
            Some(g) => g,
            None => return Err(StartError::NoSuchLocalTime),
        };
        Ok(Controller { primary, secondary, catalog, index, date: seed, grid, results: Vec::new() })
    }

    /// Makes `date` the reference date and lays out its grid. Nothing
    /// changes when the primary zone does not show 09:00 once on it.
    pub fn set_date(&mut self, date: CivilDate) -> (r: Result<(), DateInputError>)
        requires
            old(self).wf(),
            date.valid(),
        ensures
            final(self).wf(),
            r is Ok <==> has_grid(date, old(self).primary),
            r is Ok ==> {
                &&& final(self).date == date
                &&& final(self).primary == old(self).primary
                &&& final(self).secondary == old(self).secondary
                &&& final(self).catalog == old(self).catalog
                &&& final(self).index == old(self).index
                &&& final(self).results == old(self).results
            },
            r is Err ==> r == Err::<(), DateInputError>(DateInputError::NoSuchLocalTime) && *final(self) == *old(self),
    {
        match generate(date, self.primary, self.secondary) {
            Some(g) => {
                self.date = date;
                self.grid = g;
                Ok(())
            },
            None => Err(DateInputError::NoSuchLocalTime),
        }
    }

    /// Handles a picked date: an input that names no supported date leaves
    /// the state as it was and reports an invalid input; otherwise the date
    /// is replaced and the grid recomputed in full.
    pub fn on_date_changed(&mut self, raw: &str) -> (r: Result<(), DateInputError>)
        requires
            old(self).wf(),
        ensures
            final(self).wf(),
            date_of_parts(parsed_date_of(raw@)) is None ==> {
                &&& r == Err::<(), DateInputError>(DateInputError::InvalidDateInput)
                &&& *final(self) == *old(self)
            },
            date_of_parts(parsed_date_of(raw@)) matches Some(d) ==> (r is Ok <==> has_grid(d, old(self).primary)),
            date_of_parts(parsed_date_of(raw@)) matches Some(d) ==> match r {
                Ok(_) => {
                    &&& final(self).date == d
                    &&& final(self).catalog == old(self).catalog
                    &&& final(self).index == old(self).index
                    &&& final(self).results == old(self).results
                    &&& final(self).primary == old(self).primary
                    &&& final(self).secondary == old(self).secondary
                },
                Err(e) => e == DateInputError::NoSuchLocalTime && *final(self) == *old(self),
            },
    {
        let date = parse_reference_date(raw)?;
        self.set_date(date)
    }

    /// Replaces the results by those that a search for `text` gives when
    /// the index ranked the records as `found`: none for an empty text, else
    /// the first five of the ranking.
    pub fn apply_search(&mut self, text: &str, found: &Vec<usize>)
        requires
            old(self).wf(),
            found@.no_duplicates(),
            forall|i: int| 0 <= i < found@.len() ==> #[trigger] found@[i] < old(self).catalog@.len(),
        ensures
            final(self).wf(),
            final(self).results@ == results_after(text@, found@),
            final(self).date == old(self).date,
            final(self).grid == old(self).grid,
            final(self).catalog == old(self).catalog,
            final(self).index == old(self).index,
            final(self).primary == old(self).primary,
            final(self).secondary == old(self).secondary,
    {
        if text.is_empty() {
            self.results = Vec::new();
        } else {
            self.results = top_matches(found);
            proof {
                assert forall|i: int| 0 <= i < self.results@.len() implies #[trigger] self.results@[i] < self.catalog@.len() by {
                    assert(self.results@[i] == found@[i]);
                }
            }
        }
    }

    /// Handles typed search text: an empty text clears the results, any
    /// other replaces them with the five best matches of the index.
    pub fn on_search_text_changed(&mut self, raw: &str)
        requires
            old(self).wf(),
        ensures
            final(self).wf(),
            raw@.len() == 0 ==> final(self).results@.len() == 0,
            raw@.len() != 0 ==> {
                let hits = old(self).index.hits(raw@);
                &&& final(self).results@.to_set().subset_of(hits)
                &&& final(self).results@.len() == if hits.len() < MAX_RESULTS { hits.len() } else { MAX_RESULTS as nat }
            },
            final(self).date == old(self).date,
            final(self).grid == old(self).grid,
            final(self).catalog == old(self).catalog,
            final(self).index == old(self).index,
            final(self).primary == old(self).primary,
            final(self).secondary == old(self).secondary,
    {
        let found = self.index.query(raw);
        self.apply_search(raw, &found);
        assert(found@.len() <= MAX_RESULTS ==> top_of(found@) == found@);
    }
}

/// Searching twice for the same text, with the index ranking the records
/// the same way each time, leaves the same results as searching once; an
/// empty text leaves no results whatever the ranking.
pub proof fn lemma_search_idempotent(text: Seq<char>, found: Seq<usize>, again: Seq<usize>)
    ensures
        found == again ==> results_after(text, again) == results_after(text, found),
        text.len() == 0 ==> results_after(text, again) == results_after(text, found),
        text.len() == 0 ==> results_after(text, found).len() == 0,
{
}

} // verus!
