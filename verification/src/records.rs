//! Raw analyzer output and the stable record shape it is translated into.
//!
//! The analyzer session reports diagnostics and completion suggestions as
//! plain positions, strings and numeric codes. The functions here convert
//! that raw output, entry by entry and in order, into host-consumable
//! records, classifying every numeric code through the mapping tables.

use crate::mapping::completion_kind_str_spec;
use crate::mapping::kind_code_spec;
use crate::mapping::map_completion_kind_to_str;
use crate::mapping::map_severity_to_str;
use crate::mapping::severity_str_spec;
use vstd::prelude::*;

verus! {

/// One raw analyzer finding, exactly as the session reports it: a 0-based
/// text range, a message, a numeric severity code and a free-form kind tag.
#[derive(Debug, Clone, PartialEq, Eq)]
pub struct RawDiagnostic {
    pub start_line: i32,
    pub start_col: i32,
    pub end_line: i32,
    pub end_col: i32,
    pub message: String,
    pub kind: String,
    pub severity: i32,
}

/// The mathematical value of a raw finding.
pub struct RawDiagnosticView {
    pub start_line: int,
    pub start_col: int,
    pub end_line: int,
    pub end_col: int,
    pub message: Seq<char>,
    pub kind: Seq<char>,
    pub severity: int,
}

impl View for RawDiagnostic {
    type V = RawDiagnosticView;

    open spec fn view(&self) -> RawDiagnosticView {
        RawDiagnosticView {
            start_line: self.start_line as int,
            start_col: self.start_col as int,
            end_line: self.end_line as int,
            end_col: self.end_col as int,
            message: self.message@,
            kind: self.kind@,
            severity: self.severity as int,
        }
    }
}

/// One host-consumable diagnostic record: the finding's range and message
/// carried over verbatim, its severity classified into a fixed tag, and the
/// analyzer's kind tag passed through as the record's code.
#[derive(Debug, Clone, PartialEq, Eq)]
pub struct DiagnosticRecord {
    pub start_line: i32,
    pub start_column: i32,
    pub end_line: i32,
    pub end_column: i32,
    pub message: String,
    pub severity: String,
    pub code: String,
}

/// The mathematical value of a diagnostic record.
pub struct DiagnosticRecordView {
    pub start_line: int,
    pub start_column: int,
    pub end_line: int,
    pub end_column: int,
    pub message: Seq<char>,
    pub severity: Seq<char>,
    pub code: Seq<char>,
}

impl View for DiagnosticRecord {
    type V = DiagnosticRecordView;

    open spec fn view(&self) -> DiagnosticRecordView {
        DiagnosticRecordView {
            start_line: self.start_line as int,
            start_column: self.start_column as int,
            end_line: self.end_line as int,
            end_column: self.end_column as int,
            message: self.message@,
            severity: self.severity@,
            code: self.code@,
        }
    }
}

/// The one diagnostic record owed for a raw finding: positions and message
/// verbatim, severity classified, kind passed through as the code.
pub open spec fn diagnostic_record_spec(raw: RawDiagnosticView) -> DiagnosticRecordView {
    DiagnosticRecordView {
        start_line: raw.start_line,
        start_column: raw.start_col,
        end_line: raw.end_line,
        end_column: raw.end_col,
        message: raw.message,
        severity: severity_str_spec(raw.severity),
        code: raw.kind,
    }
}

/// Converts one raw finding into its diagnostic record.
pub fn diagnostic_record_from_raw(raw: &RawDiagnostic) -> (r: DiagnosticRecord)
    ensures
        r@ == diagnostic_record_spec(raw@),
{
    DiagnosticRecord {
        start_line: raw.start_line,
        start_column: raw.start_col,
        end_line: raw.end_line,
        end_column: raw.end_col,
        message: raw.message.clone(),
        severity: String::from_str(map_severity_to_str(raw.severity)),
        code: raw.kind.clone(),
    }
}

/// Converts a full list of raw findings, in the analyzer's reported order,
/// into diagnostic records.
pub fn map_diagnostics_to_records(raws: &Vec<RawDiagnostic>) -> (r: Vec<DiagnosticRecord>)
    ensures
        r@.len() == raws@.len(),
        forall|i: int| 0 <= i < r@.len() ==> r@[i]@ == diagnostic_record_spec(raws@[i]@),
{
    let mut out: Vec<DiagnosticRecord> = Vec::new();
    let mut idx: usize = 0;
    while idx < raws.len()
        invariant
            idx <= raws.len(),
            out@.len() == idx as int,
            forall|i: int| 0 <= i < idx as int ==> out@[i]@ == diagnostic_record_spec(raws@[i]@),
        decreases raws.len() - idx,
    {
        let rec = diagnostic_record_from_raw(&raws[idx]);
        out.push(rec);
        idx += 1;
    }
    out
}

/// One raw completion suggestion, exactly as the session reports it: a
/// label, an optional detail string and an optional numeric kind code.
#[derive(Debug, Clone, PartialEq, Eq)]
pub struct RawCompletionItem {
    pub label: String,
    pub detail: Option<String>,
    pub kind: Option<i32>,
}

/// The mathematical value of a raw completion suggestion.
pub struct RawCompletionItemView {
    pub label: Seq<char>,
    pub detail: Option<Seq<char>>,
    pub kind: Option<int>,
}

impl View for RawCompletionItem {
    type V = RawCompletionItemView;

    open spec fn view(&self) -> RawCompletionItemView {
        RawCompletionItemView {
            label: self.label@,
            detail: match self.detail {
                Option::Some(d) => Option::Some(d@),
                Option::None => Option::None,
            },
            kind: kind_code_spec(self.kind),
        }
    }
}

/// One host-consumable completion record: the label verbatim, the kind
/// classified into a fixed tag, the optional detail passed through, and the
/// insertable text fixed to equal the label — no richer edit template is
/// exposed.
#[derive(Debug, Clone, PartialEq, Eq)]
pub struct CompletionRecord {
    pub label: String,
    pub kind: String,
    pub detail: Option<String>,
    pub insert_text: String,
}

/// The mathematical value of a completion record.
pub struct CompletionRecordView {
    pub label: Seq<char>,
    pub kind: Seq<char>,
    pub detail: Option<Seq<char>>,
    pub insert_text: Seq<char>,
}

impl View for CompletionRecord {
    type V = CompletionRecordView;

    open spec fn view(&self) -> CompletionRecordView {
        CompletionRecordView {
            label: self.label@,
            kind: self.kind@,
            detail: match self.detail {
                Option::Some(d) => Option::Some(d@),
                Option::None => Option::None,
            },
            insert_text: self.insert_text@,
        }
    }
}

/// The one completion record owed for a raw suggestion: label and detail
/// verbatim, kind classified, and the insertable text equal to the label.
pub open spec fn completion_record_spec(raw: RawCompletionItemView) -> CompletionRecordView {
    CompletionRecordView {
        label: raw.label,
        kind: completion_kind_str_spec(raw.kind),
        detail: raw.detail,
        insert_text: raw.label,
    }
}

/// Converts one raw suggestion into its completion record.
pub fn completion_record_from_raw(raw: &RawCompletionItem) -> (r: CompletionRecord)
    ensures
        r@ == completion_record_spec(raw@),
        r@.insert_text == r@.label,
{
    let detail: Option<String> = match &raw.detail {
        Some(d) => Some(d.clone()),
        None => None,
    };
    CompletionRecord {
        label: raw.label.clone(),
        kind: String::from_str(map_completion_kind_to_str(raw.kind)),
        detail,
        insert_text: raw.label.clone(),
    }
}

/// Converts a full list of raw suggestions, in the analyzer's reported
/// order, into completion records. Every record's insertable text equals
/// its label.
pub fn map_completions_to_records(raws: &Vec<RawCompletionItem>) -> (r: Vec<CompletionRecord>)
    ensures
        r@.len() == raws@.len(),
        forall|i: int| 0 <= i < r@.len() ==> r@[i]@ == completion_record_spec(raws@[i]@),
        forall|i: int| 0 <= i < r@.len() ==> r@[i]@.insert_text == r@[i]@.label,
{
    let mut out: Vec<CompletionRecord> = Vec::new();
    let mut idx: usize = 0;
    while idx < raws.len()
        invariant
            idx <= raws.len(),
            out@.len() == idx as int,
            forall|i: int| 0 <= i < idx as int ==> out@[i]@ == completion_record_spec(raws@[i]@),
        decreases raws.len() - idx,
    {
        let rec = completion_record_from_raw(&raws[idx]);
        out.push(rec);
        idx += 1;
    }
    out
}

/// Querying diagnostics twice with no intervening source update yields two
/// equal-content record lists: any two record lists that satisfy the
/// conversion contract for the same raw finding list agree pointwise, so a
/// deterministic analyzer makes repeated queries idempotent.
pub proof fn lemma_diagnostics_idempotent(
    raws: Seq<RawDiagnosticView>,
    r1: Seq<DiagnosticRecordView>,
    r2: Seq<DiagnosticRecordView>,
)
    requires
        r1.len() == raws.len(),
        forall|i: int| 0 <= i < raws.len() ==> r1[i] == diagnostic_record_spec(raws[i]),
        r2.len() == raws.len(),
        forall|i: int| 0 <= i < raws.len() ==> r2[i] == diagnostic_record_spec(raws[i]),
    ensures
        r1 == r2,
{
    assert(r1 =~= r2);
}

/// The completion side of the same law: two conversions of one raw
/// suggestion list agree pointwise.
pub proof fn lemma_completions_idempotent(
    raws: Seq<RawCompletionItemView>,
    r1: Seq<CompletionRecordView>,
    r2: Seq<CompletionRecordView>,
)
    requires
        r1.len() == raws.len(),
        forall|i: int| 0 <= i < raws.len() ==> r1[i] == completion_record_spec(raws[i]),
        r2.len() == raws.len(),
        forall|i: int| 0 <= i < raws.len() ==> r2[i] == completion_record_spec(raws[i]),
    ensures
        r1 == r2,
{
    assert(r1 =~= r2);
}

} // verus!
