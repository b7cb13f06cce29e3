use pyrefly_analyzer::map_completions_to_records;
use pyrefly_analyzer::map_diagnostics_to_records;
use pyrefly_analyzer::records::completion_record_from_raw;
use pyrefly_analyzer::records::diagnostic_record_from_raw;
use pyrefly_analyzer::records::RawCompletionItem;
use pyrefly_analyzer::records::RawDiagnostic;

fn raw_diag(start_line: i32, message: &str, severity: i32, kind: &str) -> RawDiagnostic {
    RawDiagnostic {
        start_line,
        start_col: 0,
        end_line: start_line,
        end_col: 5,
        message: message.to_string(),
        kind: kind.to_string(),
        severity,
    }
}

#[test]
fn diagnostic_record_copies_every_field() {
    let raw = RawDiagnostic {
        start_line: 1,
        start_col: 4,
        end_line: 1,
        end_col: 9,
        message: "Parse error: expected an expression".to_string(),
        kind: "parse-error".to_string(),
        severity: 8,
    };
    let rec = diagnostic_record_from_raw(&raw);
    assert_eq!(rec.start_line, 1);
    assert_eq!(rec.start_column, 4);
    assert_eq!(rec.end_line, 1);
    assert_eq!(rec.end_column, 9);
    assert_eq!(rec.message, "Parse error: expected an expression");
    assert_eq!(rec.severity, "error");
    assert_eq!(rec.code, "parse-error");
}

#[test]
fn diagnostic_record_severity_variants() {
    assert_eq!(diagnostic_record_from_raw(&raw_diag(0, "a", 1, "k")).severity, "error");
    assert_eq!(diagnostic_record_from_raw(&raw_diag(0, "a", 2, "k")).severity, "warning");
    assert_eq!(diagnostic_record_from_raw(&raw_diag(0, "a", 3, "k")).severity, "information");
    assert_eq!(diagnostic_record_from_raw(&raw_diag(0, "a", 4, "k")).severity, "hint");
    assert_eq!(diagnostic_record_from_raw(&raw_diag(0, "a", 0, "k")).severity, "unknown");
}

#[test]
fn diagnostics_keep_order_and_length() {
    let raws = vec![
        raw_diag(0, "first", 1, "parse-error"),
        raw_diag(1, "second", 2, "unused"),
        raw_diag(2, "third", 3, "note"),
    ];
    let recs = map_diagnostics_to_records(&raws);
    assert_eq!(recs.len(), 3);
    assert_eq!(recs[0].message, "first");
    assert_eq!(recs[1].message, "second");
    assert_eq!(recs[2].message, "third");
    assert_eq!(recs[0].severity, "error");
    assert_eq!(recs[1].severity, "warning");
    assert_eq!(recs[2].severity, "information");
}

#[test]
fn empty_raw_lists_give_empty_records() {
    let diags = map_diagnostics_to_records(&Vec::new());
    assert!(diags.is_empty());
    let comps = map_completions_to_records(&Vec::new());
    assert!(comps.is_empty());
}

#[test]
fn diagnostics_mapping_is_idempotent() {
    let raws = vec![raw_diag(1, "dangling operator", 8, "parse-error"), raw_diag(3, "shadowed", 2, "lint")];
    let first = map_diagnostics_to_records(&raws);
    let second = map_diagnostics_to_records(&raws);
    assert_eq!(first, second);
}

#[test]
fn diagnostics_mapping_reflects_latest_input() {
    let raws_a = vec![raw_diag(0, "only in A", 1, "parse-error")];
    let raws_b = vec![raw_diag(5, "only in B", 2, "lint")];
    let _d_a = map_diagnostics_to_records(&raws_a);
    let d_b = map_diagnostics_to_records(&raws_b);
    assert_eq!(d_b.len(), 1);
    assert_eq!(d_b[0].message, "only in B");
    assert_eq!(d_b[0].start_line, 5);
    assert_eq!(d_b[0].severity, "warning");
}

#[test]
fn completion_record_insert_text_equals_label() {
    let raws = vec![
        RawCompletionItem { label: "path".to_string(), detail: Some("module os.path".to_string()), kind: Some(9) },
        RawCompletionItem { label: "getcwd".to_string(), detail: None, kind: Some(3) },
        RawCompletionItem { label: "environ".to_string(), detail: None, kind: None },
    ];
    let recs = map_completions_to_records(&raws);
    assert_eq!(recs.len(), 3);
    for rec in &recs {
        assert_eq!(rec.insert_text, rec.label);
    }
    assert_eq!(recs[0].label, "path");
    assert_eq!(recs[1].insert_text, "getcwd");
}

#[test]
fn completion_record_maps_kind_and_detail() {
    let with_detail = RawCompletionItem {
        label: "join".to_string(),
        detail: Some("(sep: str) -> str".to_string()),
        kind: Some(2),
    };
    let rec = completion_record_from_raw(&with_detail);
    assert_eq!(rec.kind, "Method");
    assert_eq!(rec.detail, Some("(sep: str) -> str".to_string()));
    assert_eq!(rec.insert_text, "join");

    let without_detail = RawCompletionItem { label: "cls".to_string(), detail: None, kind: None };
    let rec = completion_record_from_raw(&without_detail);
    assert_eq!(rec.kind, "Unknown");
    assert_eq!(rec.detail, None);

    let odd_kind = RawCompletionItem { label: "x".to_string(), detail: None, kind: Some(99) };
    assert_eq!(completion_record_from_raw(&odd_kind).kind, "Other");
}

#[test]
fn completions_keep_order() {
    let raws = vec![
        RawCompletionItem { label: "abort".to_string(), detail: None, kind: Some(3) },
        RawCompletionItem { label: "abs".to_string(), detail: None, kind: Some(3) },
        RawCompletionItem { label: "access".to_string(), detail: None, kind: Some(3) },
    ];
    let recs = map_completions_to_records(&raws);
    assert_eq!(recs[0].label, "abort");
    assert_eq!(recs[1].label, "abs");
    assert_eq!(recs[2].label, "access");
}

#[test]
fn completions_mapping_is_idempotent() {
    let raws = vec![
        RawCompletionItem { label: "os".to_string(), detail: Some("module".to_string()), kind: Some(9) },
        RawCompletionItem { label: "oct".to_string(), detail: None, kind: Some(3) },
    ];
    assert_eq!(map_completions_to_records(&raws), map_completions_to_records(&raws));
}
