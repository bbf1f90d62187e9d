use vstd::prelude::*;
use vstd::string::StringExecFns;

verus! {

/// The header fields and the fields of each record after it, as the CSV
/// reader splits them, or `None` when the text is not well-formed CSV.
pub uninterp spec fn csv_table_of(text: Seq<char>) -> Option<(Seq<Seq<char>>, Seq<Seq<Seq<char>>>)>;

/// Relies on csv's `Reader::headers` and `Reader::records` with the default
/// reader settings (the first line is a header, fields are separated by
/// commas, records must all have as many fields as the header): the header
/// and the fields of every record, or `None` on the first line it cannot
/// read.
#[verifier::external_body]
fn csv_table(text: &str) -> (r: Option<(Vec<String>, Vec<Vec<String>>)>)
    ensures
        r matches Some(t) ==> csv_table_of(text@) == Some((t.0.deep_view(), t.1.deep_view())),
        r is None ==> csv_table_of(text@) is None,
{
    let mut reader = csv::Reader::from_reader(text.as_bytes());
    let header = reader.headers().ok()?.iter().map(|f| f.to_string()).collect();
    let mut rows = Vec::new();
    for record in reader.records() {
        rows.push(record.ok()?.iter().map(|f| f.to_string()).collect());
    }
    Some((header, rows))
}

/// The header the dataset must start with.
pub open spec fn is_header(h: Seq<Seq<char>>) -> bool {
    h == seq!["City"@, "Country"@, "Timezone"@]
}

/// Whether `header` is exactly `City,Country,Timezone`.
pub fn header_matches(header: &Vec<String>) -> (r: bool)
    ensures
        r == is_header(header.deep_view()),
{
    if header.len() != 3 {
        assert(header.deep_view().len() != 3);
        return false;
    }
    let ok = header[0] == "City".to_owned() && header[1] == "Country".to_owned()
        && header[2] == "Timezone".to_owned();
    assert(header.deep_view()[0] == header@[0]@);
    assert(header.deep_view()[1] == header@[1]@);
    assert(header.deep_view()[2] == header@[2]@);
    if ok {
        assert(header.deep_view() =~= seq!["City"@, "Country"@, "Timezone"@]);
    }
    ok
}

/// One city of the catalog.
#[derive(Clone, Debug)]
pub struct CityRecord {
    pub city: String,
    pub country: String,
    pub timezone: String,
}

impl CityRecord {
    /// The record written `city, country, timezone`.
    pub fn label(&self) -> (r: String)
        ensures
            r@ == self.city@ + ", "@ + self.country@ + ", "@ + self.timezone@,
    {
        let mut s = self.city.clone();
        s.append(", ");
        s.append(self.country.as_str());
        s.append(", ");
        s.append(self.timezone.as_str());
        s
    }
}

/// Why the dataset could not be read.
#[derive(Clone, Copy, Debug, PartialEq, Eq, Structural)]
pub enum DatasetLoadError {
    /// The text is not well-formed CSV.
    Malformed,
    /// The first line is not `City,Country,Timezone`.
    BadHeader,
    /// The record at this position (0 is the first after the header) does
    /// not have exactly the three fields city, country and timezone.
    FieldCount { record: usize },
}

/// The record holds exactly the three fields of `row`, in order.
pub open spec fn record_of(r: CityRecord, row: Seq<Seq<char>>) -> bool {
    &&& row.len() == 3
    &&& r.city@ == row[0]
    &&& r.country@ == row[1]
    &&& r.timezone@ == row[2]
}

/// `result` is what a catalog made of `rows` reads as: the records one for
/// one, or the position of the first row without three fields.
pub open spec fn records_outcome(rows: Seq<Seq<Seq<char>>>, result: Result<Vec<CityRecord>, DatasetLoadError>) -> bool {
    match result {
        Ok(v) => {
            &&& (forall|i: int| 0 <= i < rows.len() ==> #[trigger] rows[i].len() == 3)
            &&& v@.len() == rows.len()
            &&& forall|i: int| 0 <= i < rows.len() ==> record_of(#[trigger] v@[i], rows[i])
        },
        Err(DatasetLoadError::FieldCount { record }) => {
            &&& 0 <= record < rows.len()
            &&& rows[record as int].len() != 3
            &&& forall|j: int| 0 <= j < record ==> #[trigger] rows[j].len() == 3
        },
        Err(DatasetLoadError::Malformed) => false,
        Err(DatasetLoadError::BadHeader) => false,
    }
}

/// Turns split rows into city records; every row must have three fields.
pub fn records_from_rows(rows: &Vec<Vec<String>>) -> (r: Result<Vec<CityRecord>, DatasetLoadError>)
    ensures
        records_outcome(rows.deep_view(), r),
{
    let mut out: Vec<CityRecord> = Vec::new();
    let mut i: usize = 0;
    while i < rows.len()
        invariant
            i <= rows@.len(),
            out@.len() == i,
            forall|j: int| 0 <= j < i ==> #[trigger] rows.deep_view()[j].len() == 3,
            forall|j: int| 0 <= j < i ==> record_of(#[trigger] out@[j], rows.deep_view()[j]),
        decreases rows@.len() - i,
    {
        let row = &rows[i];
        assert(rows.deep_view()[i as int] == row.deep_view());
        if row.len() != 3 {
            return Err(DatasetLoadError::FieldCount { record: i });
        }
        let rec = CityRecord {
            city: row[0].clone(),
            country: row[1].clone(),
            timezone: row[2].clone(),
        };
        out.push(rec);
        i = i + 1;
    }
    Ok(out)
}

/// What reading `text` as the dataset gives: `Malformed` when it is not
/// CSV, `BadHeader` when its header is not `City,Country,Timezone`, else
/// the outcome of its records.
pub open spec fn catalog_outcome(text: Seq<char>, r: Result<Vec<CityRecord>, DatasetLoadError>) -> bool {
    match csv_table_of(text) {
        None => r == Err::<Vec<CityRecord>, DatasetLoadError>(DatasetLoadError::Malformed),
        Some((header, rows)) => if is_header(header) {
            records_outcome(rows, r)
        } else {
            r == Err::<Vec<CityRecord>, DatasetLoadError>(DatasetLoadError::BadHeader)
        },
    }
}

/// The text reads as a catalog: CSV with the expected header and three
/// fields in every record.
pub open spec fn catalog_loads(text: Seq<char>) -> bool {
    match csv_table_of(text) {
        None => false,
        Some((header, rows)) => is_header(header)
            && forall|i: int| 0 <= i < rows.len() ==> #[trigger] rows[i].len() == 3,
    }
}

/// Reads the dataset: the header line `City,Country,Timezone`, then one
/// `city,country,timezone` record per line.
pub fn load_catalog(text: &str) -> (r: Result<Vec<CityRecord>, DatasetLoadError>)
    ensures
        catalog_outcome(text@, r),
        r is Ok <==> catalog_loads(text@),
{
    match csv_table(text) {
        None => Err(DatasetLoadError::Malformed),
        Some((header, rows)) => {
            if !header_matches(&header) {
                return Err(DatasetLoadError::BadHeader);
            }
            records_from_rows(&rows)
        },
    }
}

} // verus!
