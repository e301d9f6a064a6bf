//! Read-only catalog over the invoice table that the generator owns.
//!
//! The caller queries the database and hands in what it saw: how many tables
//! named `invoices` exist, the table's column names, and its rows. The catalog
//! decides whether the table is usable, orders the rows newest first and turns
//! each into a text-safe record.

use crate::error::{text_views, BackendError, ErrorView};
use crate::text::{spec_text_le, text_eq, text_le};
use crate::text::{lemma_text_le_total, lemma_text_le_transitive};
use base64::Engine;
use vstd::prelude::*;

verus! {

/// One row of the invoice table as stored, with the document as raw bytes.
#[derive(Clone, Debug, PartialEq, Eq)]
pub struct InvoiceRow {
    pub id: i32,
    pub invoice_number: String,
    pub service: String,
    pub invoice_date: String,
    pub due_date: String,
    pub vat_enabled: bool,
    pub vat_rate: i32,
    pub created_at: String,
    pub pdf_content: Vec<u8>,
}

/// An invoice as handed to the presentation layer, with the document as text.
#[derive(Clone, Debug, PartialEq, Eq)]
pub struct InvoiceRecord {
    pub id: i32,
    pub invoice_number: String,
    pub service: String,
    pub invoice_date: String,
    pub due_date: String,
    pub vat_enabled: bool,
    pub vat_rate: i32,
    pub created_at: String,
    pub pdf_base64: String,
}

/// The mathematical value of an [`InvoiceRow`].
pub struct RowView {
    pub id: i32,
    pub invoice_number: Seq<char>,
    pub service: Seq<char>,
    pub invoice_date: Seq<char>,
    pub due_date: Seq<char>,
    pub vat_enabled: bool,
    pub vat_rate: i32,
    pub created_at: Seq<char>,
    pub pdf_content: Seq<u8>,
}

/// The mathematical value of an [`InvoiceRecord`].
pub struct RecordView {
    pub id: i32,
    pub invoice_number: Seq<char>,
    pub service: Seq<char>,
    pub invoice_date: Seq<char>,
    pub due_date: Seq<char>,
    pub vat_enabled: bool,
    pub vat_rate: i32,
    pub created_at: Seq<char>,
    pub pdf_base64: Seq<char>,
}

impl View for InvoiceRow {
    type V = RowView;

    open spec fn view(&self) -> RowView {
        RowView {
            id: self.id,
            invoice_number: self.invoice_number@,
            service: self.service@,
            invoice_date: self.invoice_date@,
            due_date: self.due_date@,
            vat_enabled: self.vat_enabled,
            vat_rate: self.vat_rate,
            created_at: self.created_at@,
            pdf_content: self.pdf_content@,
        }
    }
}

impl View for InvoiceRecord {
    type V = RecordView;

    open spec fn view(&self) -> RecordView {
        RecordView {
            id: self.id,
            invoice_number: self.invoice_number@,
            service: self.service@,
            invoice_date: self.invoice_date@,
            due_date: self.due_date@,
            vat_enabled: self.vat_enabled,
            vat_rate: self.vat_rate,
            created_at: self.created_at@,
            pdf_base64: self.pdf_base64@,
        }
    }
}

/// The padded base64 text, in the standard alphabet, of a byte sequence.
pub uninterp spec fn base64_standard(bytes: Seq<u8>) -> Seq<char>;

/// Lengths whose encoded size still fits the machine's address range.
pub open spec fn spec_encodable(len: nat) -> bool {
    (len / 3) * 4 + 4 <= usize::MAX
}

/// Encodes bytes with `base64::engine::general_purpose::STANDARD.encode`.
///
/// Trusted: the result is the standard padded base64 text of the input. The
/// encoder stops with a panic when the encoded length overflows `usize`, so
/// such lengths are excluded.
#[verifier::external_body]
fn encode_base64(bytes: &Vec<u8>) -> (text: String)
    requires
        spec_encodable(bytes@.len()),
    ensures
        text@ == base64_standard(bytes@),
{
    base64::engine::general_purpose::STANDARD.encode(bytes)
}

/// The record that a row becomes once its document is given as `pdf_base64`.
pub open spec fn spec_assemble(row: RowView, pdf_base64: Seq<char>) -> RecordView {
    RecordView {
        id: row.id,
        invoice_number: row.invoice_number,
        service: row.service,
        invoice_date: row.invoice_date,
        due_date: row.due_date,
        vat_enabled: row.vat_enabled,
        vat_rate: row.vat_rate,
        created_at: row.created_at,
        pdf_base64,
    }
}

/// The record of a row: every column kept, the document re-encoded as text.
pub open spec fn spec_record(row: RowView) -> RecordView {
    spec_assemble(row, base64_standard(row.pdf_content))
}

/// Builds the record of a row from the already encoded document.
pub fn assemble_record(row: &InvoiceRow, pdf_base64: String) -> (record: InvoiceRecord)
    ensures
        record@ == spec_assemble(row@, pdf_base64@),
{
    InvoiceRecord {
        id: row.id,
        invoice_number: row.invoice_number.clone(),
        service: row.service.clone(),
        invoice_date: row.invoice_date.clone(),
        due_date: row.due_date.clone(),
        vat_enabled: row.vat_enabled,
        vat_rate: row.vat_rate,
        created_at: row.created_at.clone(),
        pdf_base64,
    }
}

/// Turns a stored row into a record, encoding its document.
pub fn record_of_row(row: &InvoiceRow) -> (record: InvoiceRecord)
    requires
        spec_encodable(row.pdf_content@.len()),
    ensures
        record@ == spec_record(row@),
{
    let pdf_base64 = encode_base64(&row.pdf_content);
    assemble_record(row, pdf_base64)
}

/// The columns that a usable invoice table has.
pub open spec fn spec_expected_columns() -> Seq<Seq<char>> {
    seq![
        "id"@,
        "invoice_number"@,
        "service"@,
        "invoice_date"@,
        "due_date"@,
        "vat_enabled"@,
        "vat_rate"@,
        "created_at"@,
        "pdf_content"@,
    ]
}

/// The table is usable when it exists and has every expected column.
pub open spec fn spec_schema_ready(table_count: Option<i32>, columns: Seq<Seq<char>>) -> bool {
    &&& table_count is Some
    &&& table_count.unwrap() > 0
    &&& forall|i: int|
        0 <= i < spec_expected_columns().len() ==> columns.contains(
            #[trigger] spec_expected_columns()[i],
        )
}

/// Whether `name` is among the column names.
pub fn has_column(columns: &Vec<String>, name: &str) -> (found: bool)
    ensures
        found == text_views(columns@).contains(name@),
{
    let mut i: usize = 0;
    while i < columns.len()
        invariant
            i <= columns.len(),
            forall|k: int| 0 <= k < i ==> columns[k]@ != name@,
        decreases columns.len() - i,
    {
        if text_eq(columns[i].as_str(), name) {
            assert(text_views(columns@)[i as int] == name@);
            return true;
        }
        i = i + 1;
    }
    false
}

/// Two-phase check of the invoice table: that it exists, then that it has the
/// expected shape. `table_count` is `None` when the existence query failed.
pub fn check_schema(table_count: Option<i32>, columns: &Vec<String>) -> (ready: Result<
    (),
    BackendError,
>)
    ensures
        ready is Ok <==> spec_schema_ready(table_count, text_views(columns@)),
        ready is Err ==> ready.unwrap_err()@ == ErrorView::SchemaIncompatible,
{
    let exists = match table_count {
        Some(count) => count > 0,
        None => false,
    };
    let complete = exists && has_column(columns, "id") && has_column(columns, "invoice_number")
        && has_column(columns, "service") && has_column(columns, "invoice_date") && has_column(
        columns,
        "due_date",
    ) && has_column(columns, "vat_enabled") && has_column(columns, "vat_rate") && has_column(
        columns,
        "created_at",
    ) && has_column(columns, "pdf_content");
    proof {
        let expected = spec_expected_columns();
        let held = text_views(columns@);
        if exists && !complete {
            assert(!held.contains(expected[0]) || !held.contains(expected[1]) || !held.contains(
                expected[2],
            ) || !held.contains(expected[3]) || !held.contains(expected[4]) || !held.contains(
                expected[5],
            ) || !held.contains(expected[6]) || !held.contains(expected[7]) || !held.contains(
                expected[8],
            ));
        }
    }
    if complete {
        Ok(())
    } else {
        Err(BackendError::SchemaIncompatible)
    }
}

/// `order` lists the first `count` rows, each once, newest first by creation
/// timestamp; rows with the same timestamp keep their stored order.
pub open spec fn spec_newest_first(order: Seq<int>, rows: Seq<InvoiceRow>, count: int) -> bool {
    &&& order.len() == count
    &&& count <= rows.len()
    &&& forall|k: int| 0 <= k < order.len() ==> 0 <= #[trigger] order[k] < count
    &&& forall|a: int, b: int|
        0 <= a < b < order.len() ==> #[trigger] order[a] != #[trigger] order[b]
    &&& forall|a: int, b: int|
        0 <= a < b < order.len() ==> spec_text_le(
            rows[#[trigger] order[b]].created_at@,
            rows[#[trigger] order[a]].created_at@,
        )
    &&& forall|a: int, b: int|
        0 <= a < b < order.len() && rows[#[trigger] order[a]].created_at@
            == rows[#[trigger] order[b]].created_at@ ==> order[a] < order[b]
}

/// `records` is the listing of `rows`: one record per row, newest first.
pub open spec fn spec_is_listing(rows: Seq<InvoiceRow>, records: Seq<InvoiceRecord>) -> bool {
    exists|order: Seq<int>|
        {
            &&& #[trigger] spec_newest_first(order, rows, rows.len() as int)
            &&& records.len() == rows.len()
            &&& forall|k: int|
                0 <= k < records.len() ==> (#[trigger] records[k])@ == spec_record(
                    rows[order[k]]@,
                )
        }
}

/// Every document in `rows` is short enough to be encoded.
pub open spec fn spec_all_encodable(rows: Seq<InvoiceRow>) -> bool {
    forall|i: int| 0 <= i < rows.len() ==> spec_encodable((#[trigger] rows[i]).pdf_content@.len())
}

/// Tests whether every document in `rows` is short enough to be encoded.
pub fn all_encodable(rows: &Vec<InvoiceRow>) -> (yes: bool)
    ensures
        yes == spec_all_encodable(rows@),
{
    let limit: usize = (usize::MAX - 4) / 4;
    let mut i: usize = 0;
    while i < rows.len()
        invariant
            i <= rows.len(),
            limit == (usize::MAX - 4) / 4,
            forall|k: int| 0 <= k < i ==> spec_encodable((#[trigger] rows[k]).pdf_content@.len()),
        decreases rows.len() - i,
    {
        if rows[i].pdf_content.len() / 3 > limit {
            return false;
        }
        i = i + 1;
    }
    true
}

/// The order as mathematical integers.
pub open spec fn spec_positions(order: Seq<usize>) -> Seq<int> {
    Seq::new(order.len(), |k: int| order[k] as int)
}

/// Computes in which order the rows are listed: newest first, ties in stored order.
fn newest_first_order(rows: &Vec<InvoiceRow>) -> (order: Vec<usize>)
    ensures
        spec_newest_first(spec_positions(order@), rows@, rows@.len() as int),
{
    let mut order: Vec<usize> = Vec::new();
    let mut i: usize = 0;
    while i < rows.len()
        invariant
            i <= rows.len(),
            spec_newest_first(spec_positions(order@), rows@, i as int),
        decreases rows.len() - i,
    {
        let mut p: usize = 0;
        let mut searching: bool = true;
        while searching && p < order.len()
            invariant
                i < rows.len(),
                p <= order.len(),
                spec_newest_first(spec_positions(order@), rows@, i as int),
                forall|a: int|
                    0 <= a < p ==> spec_text_le(
                        rows[i as int].created_at@,
                        rows[#[trigger] spec_positions(order@)[a]].created_at@,
                    ),
                !searching ==> p < order.len() && !spec_text_le(
                    rows[i as int].created_at@,
                    rows[spec_positions(order@)[p as int]].created_at@,
                ),
            decreases order.len() - p + (if searching { 1int } else { 0int }),
        {
            assert(spec_positions(order@)[p as int] == order[p as int]);
            if text_le(rows[i].created_at.as_str(), rows[order[p]].created_at.as_str()) {
                p = p + 1;
            } else {
                searching = false;
            }
        }
        let ghost before = spec_positions(order@);
        order.insert(p, i);
        proof {
            let after = spec_positions(order@);
            let fresh = rows[i as int].created_at@;
            assert(after =~= before.insert(p as int, i as int));
            assert forall|b: int| p < b < after.len() implies spec_text_le(
                rows[#[trigger] after[b]].created_at@,
                fresh,
            ) && rows[after[b]].created_at@ != fresh by {
                let at_p = rows[before[p as int]].created_at@;
                let at_b = rows[before[b - 1]].created_at@;
                assert(after[b] == before[b - 1]);
                assert(p < before.len());
                assert(!searching);
                assert(!spec_text_le(fresh, at_p));
                lemma_text_le_total(fresh, at_p);
                if p < b - 1 {
                    assert(spec_text_le(at_b, at_p));
                }
                crate::text::lemma_text_le_reflexive(at_p);
                lemma_text_le_transitive(at_b, at_p, fresh);
                if at_b == fresh {
                    assert(spec_text_le(fresh, at_p));
                }
            }
            assert forall|a: int, b: int| 0 <= a < b < after.len() implies #[trigger] after[a]
                != #[trigger] after[b] && spec_text_le(
                rows[after[b]].created_at@,
                rows[after[a]].created_at@,
            ) && (rows[after[a]].created_at@ == rows[after[b]].created_at@ ==> after[a]
                < after[b]) by {
                if b < p {
                    assert(after[a] == before[a] && after[b] == before[b]);
                } else if b == p {
                    assert(after[a] == before[a]);
                } else if a < p {
                    assert(after[a] == before[a] && after[b] == before[b - 1]);
                } else if a == p {
                    assert(after[b] == before[b - 1]);
                } else {
                    assert(after[a] == before[a - 1] && after[b] == before[b - 1]);
                }
            }
            assert forall|k: int| 0 <= k < after.len() implies 0 <= #[trigger] after[k] < i
                + 1 by {
                if k < p {
                    assert(after[k] == before[k]);
                } else if k > p {
                    assert(after[k] == before[k - 1]);
                }
            }
        }
        i = i + 1;
    }
    order
}

/// Lists every invoice, newest first.
///
/// `table_count` is the number of tables named `invoices` (`None` when that
/// query failed), `columns` the table's column names and `rows` its rows in any
/// order. While the table is missing or predates the expected layout the
/// listing is empty.
pub fn get_all_invoices(
    table_count: Option<i32>,
    columns: &Vec<String>,
    rows: &Vec<InvoiceRow>,
) -> (records: Vec<InvoiceRecord>)
    requires
        spec_all_encodable(rows@),
    ensures
        !spec_schema_ready(table_count, text_views(columns@)) ==> records@.len() == 0,
        spec_schema_ready(table_count, text_views(columns@)) ==> spec_is_listing(rows@, records@),
{
    let mut records: Vec<InvoiceRecord> = Vec::new();
    if check_schema(table_count, columns).is_err() {
        return records;
    }
    let order = newest_first_order(rows);
    let ghost positions = spec_positions(order@);
    let mut k: usize = 0;
    while k < order.len()
        invariant
            k <= order.len(),
            positions == spec_positions(order@),
            spec_newest_first(positions, rows@, rows@.len() as int),
            spec_all_encodable(rows@),
            records@.len() == k,
            forall|j: int| 0 <= j < k ==> (#[trigger] records[j])@ == spec_record(rows[positions[j]]@),
        decreases order.len() - k,
    {
        assert(positions[k as int] == order[k as int]);
        let record = record_of_row(&rows[order[k]]);
        records.push(record);
        k = k + 1;
    }
    assert(spec_is_listing(rows@, records@)) by {
        assert(spec_newest_first(positions, rows@, rows@.len() as int));
    }
    records
}

/// Looks up one invoice by id.
///
/// The arguments are those of [`get_all_invoices`]. The lookup fails with
/// `NotFound` while the table is not usable and when no row has the id;
/// otherwise it gives the record of the first row that has it.
pub fn get_invoice_by_id(
    table_count: Option<i32>,
    columns: &Vec<String>,
    rows: &Vec<InvoiceRow>,
    id: i32,
) -> (found: Result<InvoiceRecord, BackendError>)
    requires
        spec_all_encodable(rows@),
    ensures
        found is Ok <==> spec_schema_ready(table_count, text_views(columns@)) && exists|i: int|
            0 <= i < rows@.len() && #[trigger] rows[i].id == id,
        found is Ok ==> exists|i: int|
            {
                &&& 0 <= i < rows@.len()
                &&& #[trigger] rows[i].id == id
                &&& forall|j: int| 0 <= j < i ==> #[trigger] rows[j].id != id
                &&& found.unwrap()@ == spec_record(rows[i]@)
            },
        found is Err ==> found.unwrap_err()@ == (ErrorView::NotFound { id }),
{
    if check_schema(table_count, columns).is_err() {
        return Err(BackendError::NotFound { id });
    }
    let mut i: usize = 0;
    while i < rows.len()
        invariant
            i <= rows.len(),
            spec_all_encodable(rows@),
            spec_schema_ready(table_count, text_views(columns@)),
            forall|j: int| 0 <= j < i ==> #[trigger] rows[j].id != id,
        decreases rows.len() - i,
    {
        if rows[i].id == id {
            return Ok(record_of_row(&rows[i]));
        }
        i = i + 1;
    }
    Err(BackendError::NotFound { id })
}

} // verus!
