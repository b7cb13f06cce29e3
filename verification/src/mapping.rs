//! Total translation tables from analyzer-native numeric codes to the fixed
//! string vocabularies of the record layer.

use vstd::prelude::*;

verus! {

/// The severity tag owed for a numeric severity code.
///
/// Codes follow the language-server convention (1 = error, 2 = warning,
/// 3 = information, 4 = hint); the analyzer additionally emits 8 on one of
/// its error paths, which is classified as an error as well. Every other
/// code falls back to `unknown`.
pub open spec fn severity_str_spec(code: int) -> Seq<char> {
    if code == 1 || code == 8 {
        "error"@
    } else if code == 2 {
        "warning"@
    } else if code == 3 {
        "information"@
    } else if code == 4 {
        "hint"@
    } else {
        "unknown"@
    }
}

/// Classifies a raw severity code into one of the five fixed severity tags.
/// Total: never fails, whatever integer the analyzer reports.
pub fn map_severity_to_str(severity_code: i32) -> (r: &'static str)
    ensures
        r@ == severity_str_spec(severity_code as int),
{
    match severity_code {
        1 => "error",
        2 => "warning",
        3 => "information",
        4 => "hint",
        8 => "error",
        _ => "unknown",
    }
}

/// Totality of the severity table: every integer code is classified, and the
/// classification is one of the five fixed tags.
pub proof fn lemma_severity_totality(code: int)
    ensures
        severity_str_spec(code) == "error"@ || severity_str_spec(code) == "warning"@
            || severity_str_spec(code) == "information"@ || severity_str_spec(code) == "hint"@
            || severity_str_spec(code) == "unknown"@,
{
}

/// The five severity tags are pairwise distinct, so each code is classified
/// as exactly one of them.
pub proof fn lemma_severity_tags_distinct()
    ensures
        "error"@ != "warning"@,
        "error"@ != "information"@,
        "error"@ != "hint"@,
        "error"@ != "unknown"@,
        "warning"@ != "information"@,
        "warning"@ != "hint"@,
        "warning"@ != "unknown"@,
        "information"@ != "hint"@,
        "information"@ != "unknown"@,
        "hint"@ != "unknown"@,
{
    reveal_strlit("error");
    reveal_strlit("warning");
    reveal_strlit("information");
    reveal_strlit("hint");
    reveal_strlit("unknown");
    assert("error"@.len() == 5);
    assert("warning"@.len() == 7);
    assert("information"@.len() == 11);
    assert("hint"@.len() == 4);
    assert("unknown"@.len() == 7);
    assert("warning"@[0] == 'w');
    assert("unknown"@[0] == 'u');
}

/// The completion-kind tag owed for an optional numeric kind code.
///
/// Kind codes follow the language-server completion-kind vocabulary
/// (1 = Text through 25 = TypeParameter). A missing code is classified as
/// `Unknown`; a code outside the known set is classified as `Other`.
pub open spec fn completion_kind_str_spec(kind: Option<int>) -> Seq<char> {
    match kind {
        Option::None => "Unknown"@,
        Option::Some(k) => if k == 1 {
            "Text"@
        } else if k == 2 {
            "Method"@
        } else if k == 3 {
            "Function"@
        } else if k == 4 {
            "Constructor"@
        } else if k == 5 {
            "Field"@
        } else if k == 6 {
            "Variable"@
        } else if k == 7 {
            "Class"@
        } else if k == 8 {
            "Interface"@
        } else if k == 9 {
            "Module"@
        } else if k == 10 {
            "Property"@
        } else if k == 11 {
            "Unit"@
        } else if k == 12 {
            "Value"@
        } else if k == 13 {
            "Enum"@
        } else if k == 14 {
            "Keyword"@
        } else if k == 15 {
            "Snippet"@
        } else if k == 16 {
            "Color"@
        } else if k == 17 {
            "File"@
        } else if k == 18 {
            "Reference"@
        } else if k == 19 {
            "Folder"@
        } else if k == 20 {
            "EnumMember"@
        } else if k == 21 {
            "Constant"@
        } else if k == 22 {
            "Struct"@
        } else if k == 23 {
            "Event"@
        } else if k == 24 {
            "Operator"@
        } else if k == 25 {
            "TypeParameter"@
        } else {
            "Other"@
        },
    }
}

/// The numeric kind code carried by an optional raw kind, as a mathematical
/// value.
pub open spec fn kind_code_spec(kind: Option<i32>) -> Option<int> {
    match kind {
        Option::None => Option::None,
        Option::Some(k) => Option::Some(k as int),
    }
}

/// Classifies an optional raw completion-kind code into one of the fixed
/// completion-kind tags. Total: a missing kind yields `Unknown`, a kind
/// outside the known vocabulary yields `Other`, and no input fails.
pub fn map_completion_kind_to_str(kind: Option<i32>) -> (r: &'static str)
    ensures
        r@ == completion_kind_str_spec(kind_code_spec(kind)),
{
    match kind {
        Some(1) => "Text",
        Some(2) => "Method",
        Some(3) => "Function",
        Some(4) => "Constructor",
        Some(5) => "Field",
        Some(6) => "Variable",
        Some(7) => "Class",
        Some(8) => "Interface",
        Some(9) => "Module",
        Some(10) => "Property",
        Some(11) => "Unit",
        Some(12) => "Value",
        Some(13) => "Enum",
        Some(14) => "Keyword",
        Some(15) => "Snippet",
        Some(16) => "Color",
        Some(17) => "File",
        Some(18) => "Reference",
        Some(19) => "Folder",
        Some(20) => "EnumMember",
        Some(21) => "Constant",
        Some(22) => "Struct",
        Some(23) => "Event",
        Some(24) => "Operator",
        Some(25) => "TypeParameter",
        None => "Unknown",
        _ => "Other",
    }
}

/// Totality of the completion-kind table: every optional code is classified,
/// and the classification is one of the fixed tags.
pub proof fn lemma_completion_kind_totality(kind: Option<int>)
    ensures
        completion_kind_str_spec(kind) == "Text"@ || completion_kind_str_spec(kind) == "Method"@
            || completion_kind_str_spec(kind) == "Function"@ || completion_kind_str_spec(kind)
            == "Constructor"@ || completion_kind_str_spec(kind) == "Field"@
            || completion_kind_str_spec(kind) == "Variable"@ || completion_kind_str_spec(kind)
            == "Class"@ || completion_kind_str_spec(kind) == "Interface"@
            || completion_kind_str_spec(kind) == "Module"@ || completion_kind_str_spec(kind)
            == "Property"@ || completion_kind_str_spec(kind) == "Unit"@
            || completion_kind_str_spec(kind) == "Value"@ || completion_kind_str_spec(kind)
            == "Enum"@ || completion_kind_str_spec(kind) == "Keyword"@
            || completion_kind_str_spec(kind) == "Snippet"@ || completion_kind_str_spec(kind)
            == "Color"@ || completion_kind_str_spec(kind) == "File"@
            || completion_kind_str_spec(kind) == "Reference"@ || completion_kind_str_spec(kind)
            == "Folder"@ || completion_kind_str_spec(kind) == "EnumMember"@
            || completion_kind_str_spec(kind) == "Constant"@ || completion_kind_str_spec(kind)
            == "Struct"@ || completion_kind_str_spec(kind) == "Event"@
            || completion_kind_str_spec(kind) == "Operator"@ || completion_kind_str_spec(kind)
            == "TypeParameter"@ || completion_kind_str_spec(kind) == "Unknown"@
            || completion_kind_str_spec(kind) == "Other"@,
{
}

} // verus!
