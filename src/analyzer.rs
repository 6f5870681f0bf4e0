use vstd::prelude::*;
use crate::decimal::{decimal, i32_to_decimal};
use crate::text::concat_str;

verus! {

/// Where the private analyzer installation keeps its executable.
pub const ANALYZER_PATH: &'static str = "/tmp/cj/tools/bin/cjlint";

/// Home directory of the analyzer toolchain, also its library path.
pub const TOOLCHAIN_HOME: &'static str = "/tmp/cj";

/// Arguments of one analyzer run: target directory, JSON report, report path.
pub open spec fn analyzer_args_spec(target: Seq<char>, output: Seq<char>) -> Seq<Seq<char>> {
    seq!["-f"@, target, "-r"@, "json"@, "-o"@, output]
}

/// The command-line arguments for analyzing `repo_path` into `output_path`.
pub fn analyzer_args(repo_path: &str, output_path: &str) -> (r: Vec<String>)
    ensures
        r@.map_values(|s: String| s@) == analyzer_args_spec(repo_path@, output_path@),
{
    let mut r: Vec<String> = Vec::new();
    r.push(String::from_str("-f"));
    r.push(String::from_str(repo_path));
    r.push(String::from_str("-r"));
    r.push(String::from_str("json"));
    r.push(String::from_str("-o"));
    r.push(String::from_str(output_path));
    assert(r@.map_values(|s: String| s@) =~= analyzer_args_spec(repo_path@, output_path@));
    r
}

/// The environment of an analyzer run: library path and toolchain home.
pub fn analyzer_env() -> (r: Vec<(String, String)>)
    ensures
        r.len() == 2,
        r[0].0@ == "LD_LIBRARY_PATH"@,
        r[0].1@ == TOOLCHAIN_HOME@,
        r[1].0@ == "CANGJIE_HOME"@,
        r[1].1@ == TOOLCHAIN_HOME@,
{
    let mut r: Vec<(String, String)> = Vec::new();
    r.push((String::from_str("LD_LIBRARY_PATH"), String::from_str(TOOLCHAIN_HOME)));
    r.push((String::from_str("CANGJIE_HOME"), String::from_str(TOOLCHAIN_HOME)));
    r
}

/// How an analyzer process ended: whether it succeeded, and its exit code
/// when it has one.
#[derive(Debug, Clone, Copy, PartialEq, Eq, Structural)]
pub struct ExitInfo {
    pub success: bool,
    pub code: Option<i32>,
}

/// The exit code reported for a failed run; `-1` when there is none.
pub open spec fn reported_code(code: Option<i32>) -> int {
    match code {
        Some(c) => c as int,
        None => -1,
    }
}

/// Error text for an analyzer that exited unsuccessfully.
pub open spec fn exit_error(code: Option<i32>) -> Seq<char> {
    "cjlint command failed with exit code: "@ + decimal(reported_code(code))
}

/// Error text for an analyzer that could not be started.
pub open spec fn spawn_error(cause: Seq<char>) -> Seq<char> {
    "Failed to execute cjlint: "@ + cause
}

/// Error text for a report that could not be read.
pub open spec fn read_error(cause: Seq<char>) -> Seq<char> {
    "Failed to read cjlint output: "@ + cause
}

/// Error text for a report file that could not be deleted.
pub open spec fn delete_error(cause: Seq<char>) -> Seq<char> {
    "Failed to delete cjlint output file: "@ + cause
}

/// Decides from the way the process ended whether its report may be read:
/// only after a successful exit; otherwise the error names the exit code.
pub fn check_exit(spawned: Result<ExitInfo, String>) -> (r: Result<(), String>)
    ensures
        match spawned {
            Err(e) => r matches Err(m) && m@ == spawn_error(e@),
            Ok(x) => if x.success {
                r is Ok
            } else {
                r matches Err(m) && m@ == exit_error(x.code)
            },
        },
{
    match spawned {
        Err(e) => Err(concat_str("Failed to execute cjlint: ", e.as_str())),
        Ok(x) => {
            if x.success {
                Ok(())
            } else {
                let code: i32 = match x.code {
                    Some(c) => c,
                    None => -1,
                };
                let digits = i32_to_decimal(code);
                Err(concat_str("cjlint command failed with exit code: ", digits.as_str()))
            }
        },
    }
}

/// The analyzer's output once the report was read (or not) and its file
/// deleted (or not): the report text only if both succeeded.
pub fn report_outcome(read: Result<String, String>, deleted: Result<(), String>) -> (r: Result<String, String>)
    ensures
        match read {
            Err(e) => r matches Err(m) && m@ == read_error(e@),
            Ok(content) => match deleted {
                Err(e) => r matches Err(m) && m@ == delete_error(e@),
                Ok(_) => r == Ok::<String, String>(content),
            },
        },
{
    match read {
        Err(e) => Err(concat_str("Failed to read cjlint output: ", e.as_str())),
        Ok(content) => match deleted {
            Err(e) => Err(concat_str("Failed to delete cjlint output file: ", e.as_str())),
            Ok(()) => Ok(content),
        },
    }
}

} // verus!
