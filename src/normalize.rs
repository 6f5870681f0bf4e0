use vstd::prelude::*;
use crate::model::{AnalysisResultItem, same_but_file};
use crate::text::{has_prefix, starts_with};

verus! {

/// The working-copy path with a separator appended.
pub open spec fn with_trailing_slash(repo: Seq<char>) -> Seq<char> {
    repo.push('/')
}

/// A finding's path made relative to the working copy `repo`: the prefix
/// `repo/` is stripped; failing that, the prefix `repo` and then one leading
/// separator; a path from elsewhere is kept as it is.
pub open spec fn normalized_path(file: Seq<char>, repo: Seq<char>) -> Seq<char> {
    let full = with_trailing_slash(repo);
    if starts_with(file, full) {
        file.subrange(full.len() as int, file.len() as int)
    } else if starts_with(file, repo) {
        let rest = file.subrange(repo.len() as int, file.len() as int);
        if rest.len() > 0 && rest[0] == '/' {
            rest.subrange(1, rest.len() as int)
        } else {
            rest
        }
    } else {
        file
    }
}

/// Rewrites the path of one finding relative to the working copy.
pub fn normalize_path(file: &str, repo_path: &str) -> (r: String)
    ensures
        r@ == normalized_path(file@, repo_path@),
{
    let rlen = repo_path.unicode_len();
    let flen = file.unicode_len();
    let mut full = String::from_str(repo_path);
    let sep = "/";
    proof {
        reveal_strlit("/");
    }
    full.append(sep);
    assert(full@ =~= with_trailing_slash(repo_path@));
    if has_prefix(file, full.as_str()) {
        let flen_full = full.as_str().unicode_len();
        String::from_str(file.substring_char(flen_full, flen))
    } else if has_prefix(file, repo_path) {
        let rest = file.substring_char(rlen, flen);
        let restlen = rest.unicode_len();
        if restlen > 0 && rest.get_char(0) == '/' {
            String::from_str(rest.substring_char(1, restlen))
        } else {
            String::from_str(rest)
        }
    } else {
        String::from_str(file)
    }
}

/// Rewrites every finding's path relative to the working copy, keeping the
/// findings, their order and all their other fields.
pub fn normalize_findings(items: Vec<AnalysisResultItem>, repo_path: &str) -> (r: Vec<AnalysisResultItem>)
    ensures
        r.len() == items.len(),
        forall|i: int| 0 <= i < r.len() ==>
            same_but_file(#[trigger] items[i], r[i], normalized_path(items[i].file@, repo_path@)),
{
    let ghost orig = items@;
    let mut rest = items;
    let mut out: Vec<AnalysisResultItem> = Vec::new();
    while rest.len() > 0
        invariant
            out.len() + rest.len() == orig.len(),
            rest@ == orig.subrange(out.len() as int, orig.len() as int),
            forall|i: int| 0 <= i < out.len() ==>
                same_but_file(#[trigger] orig[i], out[i], normalized_path(orig[i].file@, repo_path@)),
        decreases rest.len(),
    {
        let item = rest.remove(0);
        assert(item == orig[out.len() as int]);
        let file = normalize_path(item.file.as_str(), repo_path);
        let AnalysisResultItem {
            file: _,
            line,
            column,
            end_line,
            end_column,
            analyzer_name,
            description,
            defect_level,
            defect_type,
            language,
        } = item;
        out.push(AnalysisResultItem {
            file,
            line,
            column,
            end_line,
            end_column,
            analyzer_name,
            description,
            defect_level,
            defect_type,
            language,
        });
        assert(rest@ =~= orig.subrange(out.len() as int, orig.len() as int));
    }
    out
}

} // verus!
