use invoice_backend::catalog::{
    all_encodable, assemble_record, check_schema, get_all_invoices, get_invoice_by_id, has_column,
    record_of_row, InvoiceRecord, InvoiceRow,
};
use invoice_backend::error::BackendError;

fn row(id: i32, created_at: &str, pdf: &[u8]) -> InvoiceRow {
    InvoiceRow {
        id,
        invoice_number: format!("INV-{}", id),
        service: "Consulting".to_string(),
        invoice_date: "2024-05-01".to_string(),
        due_date: "2024-05-15".to_string(),
        vat_enabled: id % 2 == 0,
        vat_rate: 25,
        created_at: created_at.to_string(),
        pdf_content: pdf.to_vec(),
    }
}

const EXPECTED: [&str; 9] = [
    "id",
    "invoice_number",
    "service",
    "invoice_date",
    "due_date",
    "vat_enabled",
    "vat_rate",
    "created_at",
    "pdf_content",
];

fn current_columns() -> Vec<String> {
    EXPECTED.iter().map(|c| c.to_string()).collect()
}

fn old_columns() -> Vec<String> {
    EXPECTED.iter().filter(|c| **c != "vat_rate").map(|c| c.to_string()).collect()
}

#[test]
fn record_encodes_the_document_as_base64() {
    let record = record_of_row(&row(7, "2024-05-01 10:00:00", b"hello"));
    assert_eq!(record.pdf_base64, "aGVsbG8=");
    assert_eq!(record.id, 7);
    assert_eq!(record.invoice_number, "INV-7");
    assert_eq!(record.service, "Consulting");
    assert_eq!(record.invoice_date, "2024-05-01");
    assert_eq!(record.due_date, "2024-05-15");
    assert!(!record.vat_enabled);
    assert_eq!(record.vat_rate, 25);
    assert_eq!(record.created_at, "2024-05-01 10:00:00");
}

#[test]
fn record_encoding_pads_and_uses_the_standard_alphabet() {
    assert_eq!(record_of_row(&row(1, "t", b"")).pdf_base64, "");
    assert_eq!(record_of_row(&row(1, "t", b"f")).pdf_base64, "Zg==");
    assert_eq!(record_of_row(&row(1, "t", b"fo")).pdf_base64, "Zm8=");
    assert_eq!(record_of_row(&row(1, "t", b"foo")).pdf_base64, "Zm9v");
    assert_eq!(record_of_row(&row(1, "t", &[0xfb, 0xff, 0xfe])).pdf_base64, "+//+");
    assert_eq!(record_of_row(&row(1, "t", b"%PDF-1.4")).pdf_base64, "JVBERi0xLjQ=");
}

#[test]
fn assemble_record_keeps_every_column() {
    let source = row(4, "2024-01-01", b"x");
    let record = assemble_record(&source, "eA==".to_string());
    assert_eq!(
        record,
        InvoiceRecord {
            id: 4,
            invoice_number: "INV-4".to_string(),
            service: "Consulting".to_string(),
            invoice_date: "2024-05-01".to_string(),
            due_date: "2024-05-15".to_string(),
            vat_enabled: true,
            vat_rate: 25,
            created_at: "2024-01-01".to_string(),
            pdf_base64: "eA==".to_string(),
        }
    );
}

#[test]
fn has_column_finds_exact_names_only() {
    assert!(has_column(&current_columns(), "vat_rate"));
    assert!(!has_column(&current_columns(), "Vat_rate"));
    assert!(!has_column(&current_columns(), "vat"));
    assert!(!has_column(&old_columns(), "vat_rate"));
    assert!(!has_column(&Vec::new(), "id"));
}

#[test]
fn check_schema_needs_table_and_column() {
    assert_eq!(check_schema(Some(1), &current_columns()), Ok(()));
    assert_eq!(check_schema(Some(0), &current_columns()), Err(BackendError::SchemaIncompatible));
    assert_eq!(check_schema(None, &current_columns()), Err(BackendError::SchemaIncompatible));
    assert_eq!(check_schema(Some(1), &old_columns()), Err(BackendError::SchemaIncompatible));
    assert_eq!(check_schema(Some(-1), &current_columns()), Err(BackendError::SchemaIncompatible));
}

#[test]
fn list_all_without_invoice_table_is_empty() {
    let rows = vec![row(1, "2024-05-01", b"a")];
    assert!(get_all_invoices(Some(0), &Vec::new(), &Vec::new()).is_empty());
    assert!(get_all_invoices(None, &Vec::new(), &Vec::new()).is_empty());
    assert!(get_all_invoices(Some(0), &current_columns(), &rows).is_empty());
}

#[test]
fn list_all_with_old_schema_is_empty() {
    let rows = vec![row(1, "2024-05-01", b"a")];
    assert!(get_all_invoices(Some(1), &old_columns(), &rows).is_empty());
}

#[test]
fn list_all_is_newest_first() {
    let rows = vec![
        row(1, "2024-05-01 10:00:00", b"a"),
        row(2, "2024-05-03 09:00:00", b"b"),
        row(3, "2024-05-02 23:59:59", b"c"),
        row(4, "2023-12-31 00:00:00", b"d"),
    ];
    let records = get_all_invoices(Some(1), &current_columns(), &rows);
    let ids: Vec<i32> = records.iter().map(|r| r.id).collect();
    assert_eq!(ids, vec![2, 3, 1, 4]);
    assert_eq!(records[0].pdf_base64, "Yg==");
    assert_eq!(records[3].pdf_base64, "ZA==");
}

#[test]
fn list_all_keeps_stored_order_among_equal_timestamps() {
    let rows = vec![
        row(1, "2024-05-01", b"a"),
        row(2, "2024-05-02", b"b"),
        row(3, "2024-05-01", b"c"),
        row(4, "2024-05-02", b"d"),
        row(5, "2024-05-01", b"e"),
    ];
    let records = get_all_invoices(Some(1), &current_columns(), &rows);
    let ids: Vec<i32> = records.iter().map(|r| r.id).collect();
    assert_eq!(ids, vec![2, 4, 1, 3, 5]);
}

#[test]
fn list_all_lists_every_row_once() {
    let rows: Vec<InvoiceRow> =
        (0..20).map(|i| row(i, &format!("2024-01-{:02}", (i * 7) % 28 + 1), &[i as u8])).collect();
    let records = get_all_invoices(Some(3), &current_columns(), &rows);
    assert_eq!(records.len(), rows.len());
    let mut ids: Vec<i32> = records.iter().map(|r| r.id).collect();
    ids.sort();
    assert_eq!(ids, (0..20).collect::<Vec<i32>>());
    for pair in records.windows(2) {
        assert!(pair[0].created_at >= pair[1].created_at);
    }
    for record in &records {
        assert_eq!(*record, record_of_row(&rows[record.id as usize]));
    }
}

#[test]
fn get_by_id_finds_the_row() {
    let rows = vec![row(1, "2024-05-01", b"a"), row(2, "2024-05-02", b"hello")];
    let found = get_invoice_by_id(Some(1), &current_columns(), &rows, 2);
    assert_eq!(found, Ok(record_of_row(&rows[1])));
    assert_eq!(found.unwrap().pdf_base64, "aGVsbG8=");
}

#[test]
fn get_by_id_takes_the_first_of_equal_ids() {
    let rows = vec![row(5, "first", b"a"), row(5, "second", b"b")];
    let found = get_invoice_by_id(Some(1), &current_columns(), &rows, 5).unwrap();
    assert_eq!(found.created_at, "first");
}

#[test]
fn get_by_id_reports_not_found() {
    let rows = vec![row(1, "2024-05-01", b"a")];
    assert_eq!(
        get_invoice_by_id(Some(1), &current_columns(), &rows, 9),
        Err(BackendError::NotFound { id: 9 })
    );
    assert_eq!(
        get_invoice_by_id(Some(0), &current_columns(), &rows, 1),
        Err(BackendError::NotFound { id: 1 })
    );
    assert_eq!(
        get_invoice_by_id(None, &current_columns(), &rows, 1),
        Err(BackendError::NotFound { id: 1 })
    );
    assert_eq!(
        get_invoice_by_id(Some(1), &old_columns(), &rows, 1),
        Err(BackendError::NotFound { id: 1 })
    );
}

#[test]
fn ordinary_documents_are_encodable() {
    assert!(all_encodable(&Vec::new()));
    assert!(all_encodable(&vec![row(1, "t", b""), row(2, "t", &[7u8; 1000])]));
}

#[test]
fn schema_needs_each_expected_column() {
    for missing in EXPECTED {
        let columns: Vec<String> =
            EXPECTED.iter().filter(|c| **c != missing).map(|c| c.to_string()).collect();
        assert_eq!(check_schema(Some(1), &columns), Err(BackendError::SchemaIncompatible));
        let rows = vec![row(1, "2024-05-01", b"a")];
        assert!(get_all_invoices(Some(1), &columns, &rows).is_empty());
    }
}

#[test]
fn schema_with_the_nine_columns_lists_its_rows() {
    let rows = vec![row(1, "2024-05-01", b"a"), row(2, "2024-05-02", b"b")];
    let records = get_all_invoices(Some(1), &current_columns(), &rows);
    assert_eq!(records.len(), 2);
}

#[test]
fn schema_without_the_document_column_is_not_usable() {
    let mut columns: Vec<String> =
        EXPECTED.iter().filter(|c| **c != "pdf_content").map(|c| c.to_string()).collect();
    columns.push("locale".to_string());
    let rows = vec![row(1, "2024-05-01", b"a")];
    assert!(get_all_invoices(Some(1), &columns, &rows).is_empty());
    assert_eq!(
        get_invoice_by_id(Some(1), &columns, &rows, 1),
        Err(BackendError::NotFound { id: 1 })
    );
}

#[test]
fn schema_tolerates_further_columns_and_any_order() {
    let mut columns = current_columns();
    columns.reverse();
    columns.push("locale".to_string());
    assert_eq!(check_schema(Some(2), &columns), Ok(()));
}
