use invoice_backend::collector::{
    copied_names, copy_failure, generator_output_dir, is_artifact, plan_collection, plan_copy,
    CopyTask,
};
use invoice_backend::error::BackendError;

fn names(items: &[&str]) -> Vec<String> {
    items.iter().map(|s| s.to_string()).collect()
}

#[test]
fn artifacts_are_recognised_by_extension() {
    assert!(is_artifact("invoice.pdf"));
    assert!(is_artifact("a.pdf"));
    assert!(is_artifact("a.b.pdf"));
    assert!(is_artifact("..pdf"));
    assert!(!is_artifact(".pdf"));
    assert!(!is_artifact("pdf"));
    assert!(!is_artifact("invoice.PDF"));
    assert!(!is_artifact("invoice.pdf.bak"));
    assert!(!is_artifact("invoice.txt"));
    assert!(!is_artifact(""));
}

#[test]
fn output_directory_is_out_below_the_root() {
    assert_eq!(generator_output_dir("/opt/ocaml-backend"), "/opt/ocaml-backend/out");
}

#[test]
fn collect_without_out_directory_is_empty() {
    assert!(plan_collection("/opt/ocaml-backend", "/home/u/Documents", None).is_empty());
}

#[test]
fn collect_from_empty_directory_is_empty() {
    let entries: Vec<String> = Vec::new();
    assert!(plan_collection("/opt/ocaml-backend", "/home/u/Documents", Some(&entries)).is_empty());
}

#[test]
fn collect_copies_artifacts_in_listing_order() {
    let entries = names(&["b.pdf", "notes.txt", "a.pdf", ".pdf", "c.PDF", "z.pdf"]);
    let tasks = plan_collection("/opt/gen", "/home/u/out", Some(&entries));
    assert_eq!(
        tasks,
        vec![
            CopyTask {
                file_name: "b.pdf".to_string(),
                source: "/opt/gen/out/b.pdf".to_string(),
                target: "/home/u/out/b.pdf".to_string(),
            },
            CopyTask {
                file_name: "a.pdf".to_string(),
                source: "/opt/gen/out/a.pdf".to_string(),
                target: "/home/u/out/a.pdf".to_string(),
            },
            CopyTask {
                file_name: "z.pdf".to_string(),
                source: "/opt/gen/out/z.pdf".to_string(),
                target: "/home/u/out/z.pdf".to_string(),
            },
        ]
    );
    assert_eq!(copied_names(&tasks), names(&["b.pdf", "a.pdf", "z.pdf"]));
}

#[test]
fn collect_returns_the_set_of_artifacts() {
    let entries = names(&["3.pdf", "1.pdf", "x", "2.pdf"]);
    let tasks = plan_collection("/g", "/o", Some(&entries));
    let mut copied = copied_names(&tasks);
    copied.sort();
    assert_eq!(copied, names(&["1.pdf", "2.pdf", "3.pdf"]));
}

#[test]
fn copy_failure_names_the_file() {
    let task = CopyTask {
        file_name: "invoice_7.pdf".to_string(),
        source: "/g/out/invoice_7.pdf".to_string(),
        target: "/o/invoice_7.pdf".to_string(),
    };
    let error = copy_failure(&task, "No space left on device");
    assert_eq!(
        error,
        BackendError::OutputCopyFailed {
            file: "invoice_7.pdf".to_string(),
            cause: "No space left on device".to_string(),
        }
    );
    assert_eq!(
        error.message(),
        "Failed to copy invoice_7.pdf to output directory: No space left on device"
    );
}

#[test]
fn plan_copy_keeps_the_file_name() {
    assert_eq!(
        plan_copy("/opt/gen", "/home/u/out", "invoice_3.pdf"),
        Some(CopyTask {
            file_name: "invoice_3.pdf".to_string(),
            source: "/opt/gen/out/invoice_3.pdf".to_string(),
            target: "/home/u/out/invoice_3.pdf".to_string(),
        })
    );
    assert_eq!(plan_copy("/opt/gen", "/home/u/out", "notes.txt"), None);
    assert_eq!(plan_copy("/opt/gen", "/home/u/out", ".pdf"), None);
}
