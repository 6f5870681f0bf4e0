use vstd::prelude::*;

verus! {

/// Severity of a finding, from a fixed enumeration.
#[derive(Debug, Clone, Copy, PartialEq, Eq, Structural)]
pub enum DefectLevel {
    Mandatory,
    Suggestions,
}

/// One diagnostic reported by the analyzer.
#[derive(Debug, Clone)]
pub struct AnalysisResultItem {
    pub file: String,
    pub line: i32,
    pub column: i32,
    pub end_line: i32,
    pub end_column: i32,
    pub analyzer_name: String,
    pub description: String,
    pub defect_level: DefectLevel,
    pub defect_type: String,
    pub language: String,
}

/// The externally visible artifact of one successful analysis run.
#[derive(Debug, Clone)]
pub struct AnalysisResult {
    pub cjlint: Vec<AnalysisResultItem>,
    pub created_at: i64,
    pub commit: String,
    pub package_name: String,
}

/// The response envelope sent back to the caller.
#[derive(Debug, Clone)]
pub struct ApiResponse<T> {
    pub success: bool,
    pub message: Option<String>,
    pub data: Option<T>,
    pub error: Option<String>,
}

/// `b` is `a` with its file path replaced by one whose text is `file`.
pub open spec fn same_but_file(a: AnalysisResultItem, b: AnalysisResultItem, file: Seq<char>) -> bool {
    &&& b.file@ == file
    &&& b.line == a.line
    &&& b.column == a.column
    &&& b.end_line == a.end_line
    &&& b.end_column == a.end_column
    &&& b.analyzer_name == a.analyzer_name
    &&& b.description == a.description
    &&& b.defect_level == a.defect_level
    &&& b.defect_type == a.defect_type
    &&& b.language == a.language
}

impl AnalysisResult {
    /// Assembles the result of a run from its normalized findings.
    pub fn new(cjlint: Vec<AnalysisResultItem>, created_at: i64, commit: String, package_name: String) -> (r: Self)
        ensures
            r.cjlint == cjlint,
            r.created_at == created_at,
            r.commit == commit,
            r.package_name == package_name,
    {
        AnalysisResult { cjlint, created_at, commit, package_name }
    }
}

} // verus!
