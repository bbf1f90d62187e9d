use simsearch::SimSearch;
use std::hash::Hash;
use vstd::prelude::*;

use crate::catalog::CityRecord;

verus! {

#[verifier::external_type_specification]
#[verifier::external_body]
#[verifier::reject_recursive_types(Id)]
pub struct ExSimSearch<Id: Eq + PartialEq + Clone + Hash + Ord>(SimSearch<Id>);

/// What a search engine holds: for each id, the tokens it was inserted with.
pub uninterp spec fn engine_entries(engine: SimSearch<usize>) -> Map<usize, Seq<Seq<char>>>;

/// The ids whose entries match `pattern` closely enough to be returned by a
/// search of an engine holding `entries`, in whatever order.
pub uninterp spec fn engine_hits(entries: Map<usize, Seq<Seq<char>>>, pattern: Seq<char>) -> Set<usize>;

/// Relies on simsearch's `SimSearch::new`: an engine with default options
/// and no entries.
#[verifier::external_body]
fn engine_new() -> (r: SimSearch<usize>)
    ensures
        forall|k: usize| !engine_entries(r).contains_key(k),
{
    SimSearch::new()
}

/// Relies on simsearch's `SimSearch::insert_tokens`: the id now stands for
/// these tokens, replacing what it stood for before.
#[verifier::external_body]
fn engine_insert(engine: &mut SimSearch<usize>, id: usize, city: &str, country: &str, timezone: &str)
    ensures
        engine_entries(*final(engine)) == engine_entries(*old(engine)).insert(
            id,
            seq![city@, country@, timezone@],
        ),
{
    engine.insert_tokens(id, &[city, country, timezone])
}

/// Relies on simsearch's `SimSearch::search`: ids of entries ranked by
/// similarity to the pattern, each id once. Which ids come back depends on
/// the entries and the pattern alone; their order may differ between equal
/// scores summed in another order.
#[verifier::external_body]
fn engine_search(engine: &SimSearch<usize>, pattern: &str) -> (r: Vec<usize>)
    ensures
        r@.to_set() == engine_hits(engine_entries(*engine), pattern@),
        r@.no_duplicates(),
        forall|i: int| 0 <= i < r@.len() ==> engine_entries(*engine).contains_key(#[trigger] r@[i]),
{
    engine.search(pattern)
}

/// Most results a query keeps.
pub const MAX_RESULTS: usize = 5;

/// The entries a catalog of `n` records gives: record `i` under id `i`.
pub open spec fn catalog_entries(records: Seq<CityRecord>) -> Map<usize, Seq<Seq<char>>> {
    Map::new(
        |i: usize| 0 <= i < records.len(),
        |i: usize| seq![records[i as int].city@, records[i as int].country@, records[i as int].timezone@],
    )
}

/// A fuzzy index over a catalog; a result is the position of a record.
pub struct CityIndex {
    pub engine: SimSearch<usize>,
    pub size: usize,
}

/// The first `MAX_RESULTS` of `found`, or all of them when there are fewer.
pub open spec fn top_of(found: Seq<usize>) -> Seq<usize> {
    if found.len() <= MAX_RESULTS {
        found
    } else {
        found.take(MAX_RESULTS as int)
    }
}

/// Keeps the first five of the ranked ids.
pub fn top_matches(found: &Vec<usize>) -> (r: Vec<usize>)
    ensures
        r@ == top_of(found@),
        found@.no_duplicates() ==> r@.no_duplicates(),
{
    let mut r: Vec<usize> = Vec::new();
    let mut i: usize = 0;
    while i < found.len() && i < MAX_RESULTS
        invariant
            i <= found@.len(),
            i <= MAX_RESULTS,
            r@ == found@.take(i as int),
        decreases found@.len() - i,
    {
        r.push(found[i]);
        i = i + 1;
        assert(r@ =~= found@.take(i as int));
    }
    assert(found@.len() <= MAX_RESULTS ==> found@.take(found@.len() as int) =~= found@);
    r
}

impl CityIndex {
    /// The index holds exactly the records of a catalog of `size` records.
    pub open spec fn holds(self, records: Seq<CityRecord>) -> bool {
        &&& self.size == records.len()
        &&& engine_entries(self.engine) == catalog_entries(records)
    }

    /// Every id the engine holds is the position of an indexed record.
    pub open spec fn wf(self) -> bool {
        forall|k: usize| #[trigger] engine_entries(self.engine).contains_key(k) ==> k < self.size
    }

    /// Number of records indexed.
    pub open spec fn len(self) -> nat {
        self.size as nat
    }

    /// Indexes every record under its position.
    pub fn build(records: &Vec<CityRecord>) -> (r: CityIndex)
        ensures
            r.holds(records@),
            r.wf(),
    {
        let mut engine = engine_new();
        let mut i: usize = 0;
        assert(engine_entries(engine) =~= catalog_entries(records@.take(0)));
        while i < records.len()
            invariant
                i <= records@.len(),
                engine_entries(engine) == catalog_entries(records@.take(i as int)),
            decreases records@.len() - i,
        {
            let rec = &records[i];
            engine_insert(&mut engine, i, rec.city.as_str(), rec.country.as_str(), rec.timezone.as_str());
            i = i + 1;
            assert(engine_entries(engine) =~= catalog_entries(records@.take(i as int)));
        }
        assert(records@.take(records@.len() as int) =~= records@);
        assert(forall|k: usize| engine_entries(engine).contains_key(k) ==> k < records@.len());
        CityIndex { engine, size: records.len() }
    }

    /// The records that a search for `text` matches, by position.
    pub open spec fn hits(self, text: Seq<char>) -> Set<usize> {
        engine_hits(engine_entries(self.engine), text)
    }

    /// Positions of the records that best match `text`, best first, at most
    /// five, each once; none for an empty text. Of a longer list of matches
    /// it keeps five; of a shorter one, all.
    pub fn query(&self, text: &str) -> (r: Vec<usize>)
        requires
            self.wf(),
        ensures
            r@.len() <= MAX_RESULTS,
            r@.no_duplicates(),
            forall|i: int| 0 <= i < r@.len() ==> #[trigger] r@[i] < self.len(),
            text@.len() == 0 ==> r@.len() == 0,
            text@.len() != 0 ==> {
                &&& r@.to_set().subset_of(self.hits(text@))
                &&& r@.len() == if self.hits(text@).len() < MAX_RESULTS { self.hits(text@).len() } else { MAX_RESULTS as nat }
            },
    {
        if text.is_empty() {
            return Vec::new();
        }
        let found = engine_search(&self.engine, text);
        let r = top_matches(&found);
        proof {
            found@.unique_seq_to_set();
            assert forall|x: usize| r@.to_set().contains(x) implies found@.to_set().contains(x) by {
                let k = choose|k: int| 0 <= k < r@.len() && r@[k] == x;
                assert(found@[k] == x);
            }
        }
        assert forall|i: int| 0 <= i < r@.len() implies #[trigger] r@[i] < self.len() by {
            assert(r@[i] == found@[i]);
            assert(engine_entries(self.engine).contains_key(found@[i]));
        }
        r
    }
}

} // verus!
