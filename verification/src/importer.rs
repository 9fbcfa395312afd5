//! Import row processing: header mapping, previews, and the insert
//! accounting.
//!
//! Reading CSV/XLSX files happens outside this crate; it hands the
//! rows over as plain string records. Which rows are skipped, what is
//! trimmed, and which ids come back are specified here.

use vstd::prelude::*;

use crate::schema::opt_view;
use crate::store::{spec_flags, Store, StoreError};
use crate::text::{str_eq, trim_str, trimmed};

verus! {

/// The header row and the first rows of a file, for column mapping.
/// Each row is padded with empty cells to the header width.
pub struct ImportPreview {
    pub headers: Vec<String>,
    pub rows: Vec<Vec<String>>,
}

/// Which source column fills which message field.
pub struct ColumnMapping {
    pub content: String,
    pub received_at: Option<String>,
    pub sender: Option<String>,
    pub phone: Option<String>,
    pub source: Option<String>,
}

/// The same mapping resolved to column indices.
pub struct ResolvedMapping {
    pub content: usize,
    pub received_at: Option<usize>,
    pub sender: Option<usize>,
    pub phone: Option<usize>,
    pub source: Option<usize>,
}

/// What one import did.
pub struct ImportExecuteResult {
    pub total_rows: usize,
    pub valid_rows: usize,
    pub inserted: usize,
    pub skipped_empty_content: usize,
    pub first_insert_id: Option<i64>,
    pub last_insert_id: Option<i64>,
}

/// The position of `name` among the headers.
pub fn header_index(headers: &Vec<String>, name: &str) -> (r: Result<usize, String>)
    ensures
        match r {
            Ok(i) => i < headers@.len() && headers@[i as int]@ == name@ && forall|j: int|
                0 <= j < i ==> headers@[j]@ != name@,
            Err(e) => (forall|j: int|
                0 <= j < headers@.len() ==> headers@[j]@ != name@) && e@ == "header not found: "@
                + name@,
        },
{
    let mut i: usize = 0;
    while i < headers.len()
        invariant
            i <= headers@.len(),
            forall|j: int| 0 <= j < i ==> headers@[j]@ != name@,
        decreases headers@.len() - i,
    {
        if str_eq(headers[i].as_str(), name) {
            return Ok(i);
        }
        i += 1;
    }
    let mut e = String::from_str("header not found: ");
    e.append(name);
    Err(e)
}

/// `name` occurs among the headers.
pub open spec fn header_present(h: Seq<String>, name: Seq<char>) -> bool {
    exists|j: int| 0 <= j < h.len() && (#[trigger] h[j])@ == name
}

/// The first mapped header name, in the fixed field order, that is
/// absent from the header row.
pub open spec fn spec_missing_header(h: Seq<String>, m: ColumnMapping) -> Option<Seq<char>> {
    if !header_present(h, m.content@) {
        Some(m.content@)
    } else if (match m.received_at {
        Some(n) => !header_present(h, n@),
        None => false,
    }) {
        Some(m.received_at.unwrap()@)
    } else if (match m.sender {
        Some(n) => !header_present(h, n@),
        None => false,
    }) {
        Some(m.sender.unwrap()@)
    } else if (match m.phone {
        Some(n) => !header_present(h, n@),
        None => false,
    }) {
        Some(m.phone.unwrap()@)
    } else if (match m.source {
        Some(n) => !header_present(h, n@),
        None => false,
    }) {
        Some(m.source.unwrap()@)
    } else {
        None
    }
}

/// Resolves a column mapping against the header row. Fails exactly
/// when a mapped header is absent, naming the first missing one.
pub fn resolve_mapping(headers: &Vec<String>, mapping: &ColumnMapping) -> (r: Result<
    ResolvedMapping,
    String,
>)
    ensures
        match r {
            Ok(m) => {
                &&& m.content < headers@.len() && headers@[m.content as int]@ == mapping.content@
                &&& match (mapping.received_at, m.received_at) {
                    (Some(n), Some(i)) => i < headers@.len() && headers@[i as int]@ == n@,
                    (None, None) => true,
                    _ => false,
                }
                &&& match (mapping.sender, m.sender) {
                    (Some(n), Some(i)) => i < headers@.len() && headers@[i as int]@ == n@,
                    (None, None) => true,
                    _ => false,
                }
                &&& match (mapping.phone, m.phone) {
                    (Some(n), Some(i)) => i < headers@.len() && headers@[i as int]@ == n@,
                    (None, None) => true,
                    _ => false,
                }
                &&& match (mapping.source, m.source) {
                    (Some(n), Some(i)) => i < headers@.len() && headers@[i as int]@ == n@,
                    (None, None) => true,
                    _ => false,
                }
            },
            Err(e) => match spec_missing_header(headers@, *mapping) {
                Some(name) => e@ == "header not found: "@ + name,
                None => false,
            },
        },
{
    let content = match header_index(headers, mapping.content.as_str()) {
        Ok(i) => i,
        Err(e) => {
            return Err(e);
        },
    };
    let received_at = match &mapping.received_at {
        Some(n) => match header_index(headers, n.as_str()) {
            Ok(i) => Some(i),
            Err(e) => {
                return Err(e);
            },
        },
        None => None,
    };
    let sender = match &mapping.sender {
        Some(n) => match header_index(headers, n.as_str()) {
            Ok(i) => Some(i),
            Err(e) => {
                return Err(e);
            },
        },
        None => None,
    };
    let phone = match &mapping.phone {
        Some(n) => match header_index(headers, n.as_str()) {
            Ok(i) => Some(i),
            Err(e) => {
                return Err(e);
            },
        },
        None => None,
    };
    let source = match &mapping.source {
        Some(n) => match header_index(headers, n.as_str()) {
            Ok(i) => Some(i),
            Err(e) => {
                return Err(e);
            },
        },
        None => None,
    };
    Ok(ResolvedMapping { content, received_at, sender, phone, source })
}

/// The preview of a parsed file: the headers and the first `max_rows`
/// records, each record padded or cut to the header width.
pub fn preview(headers: Vec<String>, records: &Vec<Vec<String>>, max_rows: usize) -> (r:
    ImportPreview)
    ensures
        r.headers@ == headers@,
        r.rows@.len() == (if records@.len() <= max_rows {
            records@.len() as int
        } else {
            max_rows as int
        }),
        forall|k: int|
            0 <= k < r.rows@.len() ==> (#[trigger] r.rows@[k])@.len() == headers@.len() && forall|
                j: int,
            |
                0 <= j < headers@.len() ==> r.rows@[k]@[j]@ == (if j < records@[k]@.len() {
                    records@[k]@[j]@
                } else {
                    Seq::<char>::empty()
                }),
{
    let mut rows: Vec<Vec<String>> = Vec::new();
    let mut k: usize = 0;
    while k < records.len() && k < max_rows
        invariant
            k <= records@.len(),
            k <= max_rows,
            rows@.len() == k,
            k < records@.len() || k == records@.len(),
            forall|m: int|
                0 <= m < k ==> (#[trigger] rows@[m])@.len() == headers@.len() && forall|j: int|
                    0 <= j < headers@.len() ==> rows@[m]@[j]@ == (if j < records@[m]@.len() {
                        records@[m]@[j]@
                    } else {
                        Seq::<char>::empty()
                    }),
        decreases records@.len() - k,
    {
        let rec = &records[k];
        let mut row: Vec<String> = Vec::new();
        let mut j: usize = 0;
        while j < headers.len()
            invariant
                j <= headers@.len(),
                row@.len() == j,
                forall|m: int|
                    0 <= m < j ==> row@[m]@ == (if m < rec@.len() {
                        rec@[m]@
                    } else {
                        Seq::<char>::empty()
                    }),
            decreases headers@.len() - j,
        {
            if j < rec.len() {
                row.push(rec[j].clone());
            } else {
                row.push(String::new());
            }
            j += 1;
        }
        rows.push(row);
        k += 1;
    }
    ImportPreview { headers, rows }
}

/// The cell at `idx`, empty when the row is short.
pub open spec fn cell(rec: Seq<String>, idx: int) -> Seq<char> {
    if 0 <= idx < rec.len() {
        rec[idx]@
    } else {
        Seq::<char>::empty()
    }
}

/// The row has usable (non-empty once trimmed) content.
pub open spec fn row_valid(rec: Seq<String>, cidx: int) -> bool {
    trimmed(cell(rec, cidx)).len() > 0
}

/// An optional field value: the trimmed cell when mapped and
/// non-empty.
pub open spec fn opt_field(rec: Seq<String>, oidx: Option<usize>) -> Option<Seq<char>> {
    match oidx {
        Some(i) => if trimmed(cell(rec, i as int)).len() > 0 {
            Some(trimmed(cell(rec, i as int)))
        } else {
            None
        },
        None => None,
    }
}

/// How many of the first `upto` records are valid.
pub open spec fn valid_count(records: Seq<Vec<String>>, cidx: int, upto: int) -> int
    decreases upto,
{
    if upto <= 0 || upto > records.len() {
        0
    } else {
        valid_count(records, cidx, upto - 1) + (if row_valid(records[upto - 1]@, cidx) {
            1int
        } else {
            0int
        })
    }
}

/// The indices of the valid records among the first `upto`, in order.
pub open spec fn valid_indices(records: Seq<Vec<String>>, cidx: int, upto: int) -> Seq<int>
    decreases upto,
{
    if upto <= 0 || upto > records.len() {
        Seq::<int>::empty()
    } else {
        valid_indices(records, cidx, upto - 1) + (if row_valid(records[upto - 1]@, cidx) {
            seq![upto - 1]
        } else {
            Seq::<int>::empty()
        })
    }
}

/// Valid-row counts grow with the prefix length.
pub proof fn lemma_valid_count_mono(records: Seq<Vec<String>>, cidx: int, a: int, b: int)
    requires
        0 <= a <= b <= records.len(),
    ensures
        valid_count(records, cidx, a) <= valid_count(records, cidx, b),
    decreases b - a,
{
    if a < b {
        lemma_valid_count_mono(records, cidx, a, b - 1);
    }
}

/// The message built from a record stands in the store as specified:
/// trimmed content, trimmed optional fields with empties dropped, and
/// the derived flags of the content.
pub open spec fn inserted_from(msg: crate::store::MessageRecord, rec: Seq<String>, m: ResolvedMapping) -> bool {
    &&& msg.content@ == trimmed(cell(rec, m.content as int))
    &&& opt_view(msg.received_at) == opt_field(rec, m.received_at)
    &&& opt_view(msg.sender) == opt_field(rec, m.sender)
    &&& opt_view(msg.phone) == opt_field(rec, m.phone)
    &&& opt_view(msg.source) == opt_field(rec, m.source)
    &&& (msg.has_url, msg.has_amount, msg.has_verification_code) == spec_flags(msg.content@)
    &&& msg.label is None
}

fn opt_cell_field(rec: &Vec<String>, oidx: Option<usize>) -> (r: Option<String>)
    ensures
        crate::schema::opt_view(r) == opt_field(rec@, oidx),
{
    match oidx {
        Some(i) => {
            let raw = if i < rec.len() {
                trim_str(rec[i].as_str())
            } else {
                String::new()
            };
            proof {
                if !(i < rec@.len()) {
                    assert(trimmed(Seq::<char>::empty()) =~= Seq::<char>::empty());
                }
            }
            if raw.as_str().unicode_len() > 0 {
                Some(raw)
            } else {
                None
            }
        },
        None => None,
    }
}

/// Inserts the valid records of a parsed file into the store: rows
/// whose trimmed content is empty are skipped, every other field is
/// trimmed with empty values dropped, and ids are handed out
/// consecutively. Fails only when the store is full; the rows
/// inserted before the failure remain.
#[verifier::loop_isolation(false)]
pub fn import_rows(store: &mut Store, records: &Vec<Vec<String>>, m: &ResolvedMapping) -> (r:
    Result<ImportExecuteResult, StoreError>)
    ensures
        match r {
            Ok(res) => {
                &&& res.total_rows == records@.len()
                &&& res.valid_rows as int == valid_count(
                    records@,
                    m.content as int,
                    records@.len() as int,
                )
                &&& res.inserted == res.valid_rows
                &&& res.skipped_empty_content == res.total_rows - res.valid_rows
                &&& final(store).messages@.len() == old(store).messages@.len() + res.inserted
                &&& final(store).audit@ == old(store).audit@
                &&& forall|j: int|
                    0 <= j < old(store).messages@.len() ==> final(store).messages@[j] == old(store).messages@[j]
                &&& ({
                    let vi = valid_indices(records@, m.content as int, records@.len() as int);
                    &&& vi.len() == res.inserted
                    &&& forall|k: int|
                        0 <= k < vi.len() ==> inserted_from(
                            #[trigger] final(store).messages@[old(store).messages@.len() + k],
                            records@[vi[k]]@,
                            *m,
                        )
                })
                &&& res.first_insert_id == (if res.inserted > 0 {
                    Some((old(store).messages@.len() + 1) as i64)
                } else {
                    None
                })
                &&& res.last_insert_id == (if res.inserted > 0 {
                    Some((old(store).messages@.len() + res.inserted) as i64)
                } else {
                    None
                })
            },
            Err(e) => {
                &&& e == StoreError::Storage
                &&& old(store).messages@.len() + valid_count(
                    records@,
                    m.content as int,
                    records@.len() as int,
                ) > 0x7fff_ffff_ffff_ffff
                &&& final(store).audit@ == old(store).audit@
                &&& old(store).messages@.len() <= final(store).messages@.len()
                &&& forall|j: int|
                    0 <= j < old(store).messages@.len() ==> final(store).messages@[j] == old(
                        store,
                    ).messages@[j]
            },
        },
{
    let mut total: usize = 0;
    let mut valid: usize = 0;
    let mut first_insert_id: Option<i64> = None;
    let mut last_insert_id: Option<i64> = None;
    let ghost base_len = store.messages@.len();
    let mut k: usize = 0;
    while k < records.len()
        invariant
            k <= records@.len(),
            total == k,
            valid as int == valid_count(records@, m.content as int, k as int),
            valid <= k,
            store.messages@.len() == base_len + valid,
            store.audit@ == old(store).audit@,
            forall|j: int|
                0 <= j < base_len ==> store.messages@[j] == old(store).messages@[j],
            ({
                let vi = valid_indices(records@, m.content as int, k as int);
                &&& vi.len() == valid
                &&& forall|q: int|
                    0 <= q < vi.len() ==> inserted_from(
                        #[trigger] store.messages@[base_len + q],
                        records@[vi[q]]@,
                        *m,
                    )
            }),
            first_insert_id == (if valid > 0 {
                Some((base_len + 1) as i64)
            } else {
                None
            }),
            last_insert_id == (if valid > 0 {
                Some((base_len + valid) as i64)
            } else {
                None
            }),
        decreases records@.len() - k,
    {
        let rec = &records[k];
        let content = if m.content < rec.len() {
            trim_str(rec[m.content].as_str())
        } else {
            String::new()
        };
        proof {
            if !(m.content < rec@.len()) {
                assert(trimmed(Seq::<char>::empty()) =~= Seq::<char>::empty());
            }
        }
        if content.as_str().unicode_len() > 0 {
            let received_at = opt_cell_field(rec, m.received_at);
            let sender = opt_cell_field(rec, m.sender);
            let phone = opt_cell_field(rec, m.phone);
            let source = opt_cell_field(rec, m.source);
            match store.insert_message(content, received_at, sender, phone, source) {
                Ok(id) => {
                    if first_insert_id.is_none() {
                        first_insert_id = Some(id);
                    }
                    last_insert_id = Some(id);
                    valid += 1;
                    proof {
                        assert(valid_indices(records@, m.content as int, k + 1) =~= valid_indices(
                            records@,
                            m.content as int,
                            k as int,
                        ) + seq![k as int]);
                    }
                },
                Err(_) => {
                    proof {
                        assert(store.messages@.len() >= 0x7fff_ffff_ffff_ffff);
                        assert(valid_count(records@, m.content as int, k + 1) == valid_count(
                            records@,
                            m.content as int,
                            k as int,
                        ) + 1);
                        lemma_valid_count_mono(
                            records@,
                            m.content as int,
                            k + 1,
                            records@.len() as int,
                        );
                    }
                    return Err(StoreError::Storage);
                },
            }
        } else {
            proof {
                assert(valid_indices(records@, m.content as int, k + 1) =~= valid_indices(
                    records@,
                    m.content as int,
                    k as int,
                ));
            }
        }
        total += 1;
        k += 1;
    }
    Ok(
        ImportExecuteResult {
            total_rows: total,
            valid_rows: valid,
            inserted: valid,
            skipped_empty_content: total - valid,
            first_insert_id,
            last_insert_id,
        },
    )
}

} // verus!
