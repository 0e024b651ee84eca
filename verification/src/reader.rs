//! Reading manifest rows.
//!
//! A manifest is a CSV file whose first row is a header and whose data
//! rows are `sign, size, ext` (extra columns are ignored). The CSV
//! grammar is handled by an outside parser behind a trusted wrapper;
//! everything after it — column extraction, size parsing, the size and
//! count totals — is verified. The surrounding application reads the
//! file into a string and walks directories.

use vstd::prelude::*;

use crate::text::{dec_value, valid_dec};

verus! {

/// The records (after the header row) that a CSV text parses to, if
/// every record parses; each record is its fields in order.
pub uninterp spec fn csv_records(text: Seq<char>) -> Option<Seq<Seq<Seq<char>>>>;

/// Relies on csv::Reader: parses comma-separated records after a
/// header row, a pure function of the text.
#[verifier::external_body]
fn csv_parse_records(text: &str) -> (r: Option<Vec<Vec<String>>>)
    ensures
        r.deep_view() == csv_records(text@),
{
    let mut reader = csv::Reader::from_reader(text.as_bytes());
    let mut rows: Vec<Vec<String>> = Vec::new();
    for record in reader.records() {
        match record {
            Ok(rec) => rows.push(rec.iter().map(|f| f.to_string()).collect()),
            Err(_) => return None,
        }
    }
    Some(rows)
}

/// One manifest row: an object's signed token, its expected byte size,
/// and its extension.
#[derive(Debug)]
pub struct MetaRow {
    pub sign: String,
    pub size: u64,
    pub ext: String,
}

/// What a raw record parses to: its first three fields, with the second
/// read as a decimal `u64`; nothing when a field is missing or the size
/// is not a `u64`.
pub open spec fn spec_parse_row(row: Seq<Seq<char>>) -> Option<(Seq<char>, nat, Seq<char>)> {
    if row.len() < 3 {
        None
    } else if !valid_dec(row[1]) || dec_value(row[1]) > u64::MAX {
        None
    } else {
        Some((row[0], dec_value(row[1]), row[2]))
    }
}

/// The views of a raw record's fields.
pub open spec fn row_views(row: Seq<String>) -> Seq<Seq<char>> {
    Seq::new(row.len(), |i: int| row[i]@)
}

/// Parses one raw record into a row.
pub fn parse_row(row: &Vec<String>) -> (r: Option<MetaRow>)
    ensures
        match r {
            Some(m) => spec_parse_row(row_views(row@)) == Some((m.sign@, m.size as nat, m.ext@)),
            None => spec_parse_row(row_views(row@)) is None,
        },
{
    if row.len() < 3 {
        return None;
    }
    let size = match crate::text::parse_u64(row[1].as_str()) {
        Some(v) => v,
        None => return None,
    };
    proof {
        assert(row_views(row@)[1] == row@[1]@);
    }
    Some(MetaRow { sign: row[0].clone(), size, ext: row[2].clone() })
}

/// The total of the sizes of the first `k` rows.
pub open spec fn spec_sum_sizes(rows: Seq<MetaRow>, k: int) -> int
    decreases k,
{
    if k <= 0 {
        0
    } else {
        spec_sum_sizes(rows, k - 1) + rows[k - 1].size
    }
}

/// Sums a batch of rows: the row count and the byte total, or nothing
/// when the byte total does not fit in a `u64`.
pub fn sum_rows(rows: &Vec<MetaRow>) -> (r: Option<(u64, u64)>)
    requires
        rows@.len() <= u64::MAX,
    ensures
        match r {
            Some(t) => t.0 == rows@.len() && t.1 == spec_sum_sizes(rows@, rows@.len() as int),
            None => spec_sum_sizes(rows@, rows@.len() as int) > u64::MAX,
        },
{
    let n = rows.len();
    let mut bytes: u64 = 0;
    let mut i: usize = 0;
    while i < n
        invariant
            n == rows@.len(),
            0 <= i <= n,
            bytes == spec_sum_sizes(rows@, i as int),
        decreases n - i,
    {
        bytes = match bytes.checked_add(rows[i].size) {
            Some(v) => v,
            None => {
                proof {
                    lemma_sum_sizes_monotonic(rows@, i + 1, n as int);
                }
                return None;
            },
        };
        i = i + 1;
    }
    Some((n as u64, bytes))
}

proof fn lemma_sum_sizes_monotonic(rows: Seq<MetaRow>, k: int, n: int)
    requires
        0 <= k <= n <= rows.len(),
    ensures
        spec_sum_sizes(rows, k) <= spec_sum_sizes(rows, n),
    decreases n - k,
{
    if k < n {
        lemma_sum_sizes_monotonic(rows, k + 1, n);
    }
}

/// What a manifest text yields: its rows, when the CSV parses and every
/// record is a well-formed row.
pub open spec fn spec_manifest_rows(text: Seq<char>) -> Option<Seq<(Seq<char>, nat, Seq<char>)>> {
    match csv_records(text) {
        None => None,
        Some(recs) => {
            if forall|i: int| 0 <= i < recs.len() ==> spec_parse_row(recs[i]) is Some {
                Some(Seq::new(recs.len(), |i: int| spec_parse_row(recs[i])->Some_0))
            } else {
                None
            }
        },
    }
}

/// Parses a whole manifest text into rows. Fails exactly when the CSV
/// does not parse or some record is malformed.
pub fn read_manifest_rows(text: &str) -> (r: Option<Vec<MetaRow>>)
    ensures
        match r {
            Some(rows) => ({
                &&& spec_manifest_rows(text@) is Some
                &&& rows@.len() == spec_manifest_rows(text@)->Some_0.len()
                &&& forall|i: int|
                    0 <= i < rows@.len() ==> spec_manifest_rows(text@)->Some_0[i] == (
                    rows@[i].sign@,
                    rows@[i].size as nat,
                    rows@[i].ext@,
                )
            }),
            None => spec_manifest_rows(text@) is None,
        },
{
    let recs = match csv_parse_records(text) {
        Some(v) => v,
        None => return None,
    };
    proof {
        assert(recs.deep_view().len() == recs@.len());
        assert forall|i: int| 0 <= i < recs@.len() implies recs.deep_view()[i] =~= row_views(
            recs@[i]@,
        ) by {
            assert(recs.deep_view()[i] == recs@[i].deep_view());
        };
    }
    let n = recs.len();
    let mut rows: Vec<MetaRow> = Vec::new();
    let mut i: usize = 0;
    while i < n
        invariant
            n == recs@.len(),
            0 <= i <= n,
            csv_records(text@) == Some(recs.deep_view()),
            recs.deep_view().len() == recs@.len(),
            forall|k: int| 0 <= k < n ==> recs.deep_view()[k] == row_views(recs@[k]@),
            rows@.len() == i,
            forall|k: int|
                0 <= k < i ==> spec_parse_row(recs.deep_view()[k]) == Some(
                    (rows@[k].sign@, rows@[k].size as nat, rows@[k].ext@),
                ),
        decreases n - i,
    {
        match parse_row(&recs[i]) {
            Some(m) => rows.push(m),
            None => {
                proof {
                    assert(spec_parse_row(recs.deep_view()[i as int]) is None);
                }
                return None;
            },
        }
        i = i + 1;
    }
    Some(rows)
}

/// Reads manifests from a directory of CSV files; the surrounding
/// application lists the directory and loads each file's text.
#[derive(Debug)]
pub struct CSVMetaReader {
    pub meta_path: String,
}

impl CSVMetaReader {
    /// A reader rooted at the given manifest directory.
    pub fn new(file_path: String) -> (r: CSVMetaReader)
        ensures
            r.meta_path == file_path,
    {
        CSVMetaReader { meta_path: file_path }
    }
}

/// Totals accumulated over manifest rows: how many objects and how many
/// bytes a set of manifests requires.
#[derive(Debug, Default)]
pub struct EventReader {
    pub total_size: i64,
    pub total_count: i64,
}

} // verus!
