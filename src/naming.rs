use vstd::prelude::*;
use crate::text::concat_str;
use rand::Rng;

verus! {

/// Length of the random suffix of working-directory and output-file names.
pub const SUFFIX_LEN: usize = 10;

/// An ASCII letter or digit.
pub open spec fn is_alphanumeric(c: char) -> bool {
    ('a' <= c && c <= 'z') || ('A' <= c && c <= 'Z') || ('0' <= c && c <= '9')
}

/// A string of `len` ASCII letters and digits.
pub open spec fn is_random_suffix(s: Seq<char>, len: nat) -> bool {
    s.len() == len && forall|i: int| 0 <= i < s.len() ==> is_alphanumeric(#[trigger] s[i])
}

/// Path of the working copy whose name ends in `suffix`.
pub open spec fn repo_dir(suffix: Seq<char>) -> Seq<char> {
    "/tmp/cjrepo_"@ + suffix
}

/// Path of the analyzer's report file whose name is made from `suffix`.
pub open spec fn report_path(suffix: Seq<char>) -> Seq<char> {
    "/tmp/"@ + suffix + ".json"@
}

/// Key under which the analysis of `repo` is cached.
pub open spec fn cache_key_of(repo: Seq<char>) -> Seq<char> {
    "cjlint_"@ + repo
}

/// Relies on rand's thread-local generator sampled with `Alphanumeric`:
/// `length` characters, each drawn from `A-Z`, `a-z` and `0-9`.
#[verifier::external_body]
pub(crate) fn generate_random_string(length: usize) -> (r: String)
    ensures
        is_random_suffix(r@, length as nat),
{
    rand::rng().sample_iter(rand::distr::Alphanumeric).take(length).map(char::from).collect()
}

/// The working-copy path for a given random suffix.
pub fn repo_dir_for(suffix: &str) -> (r: String)
    ensures
        r@ == repo_dir(suffix@),
{
    concat_str("/tmp/cjrepo_", suffix)
}

/// The analyzer report path for a given random suffix.
pub fn report_path_for(suffix: &str) -> (r: String)
    ensures
        r@ == report_path(suffix@),
{
    let head = concat_str("/tmp/", suffix);
    concat_str(head.as_str(), ".json")
}

/// A fresh working-copy path, named with a random alphanumeric suffix.
pub fn new_repo_dir() -> (r: String)
    ensures
        exists|s: Seq<char>| is_random_suffix(s, SUFFIX_LEN as nat) && r@ == repo_dir(s),
{
    let suffix = generate_random_string(SUFFIX_LEN);
    repo_dir_for(suffix.as_str())
}

/// A fresh analyzer report path, named with a random alphanumeric suffix.
pub fn new_report_path() -> (r: String)
    ensures
        exists|s: Seq<char>| is_random_suffix(s, SUFFIX_LEN as nat) && r@ == report_path(s),
{
    let suffix = generate_random_string(SUFFIX_LEN);
    report_path_for(suffix.as_str())
}

/// The cache key of a repository URL: the URL under a fixed namespace.
pub fn cache_key(repo: &str) -> (r: String)
    ensures
        r@ == cache_key_of(repo@),
{
    concat_str("cjlint_", repo)
}

/// Distinct random suffixes give distinct working-copy paths, so two
/// requests can share a directory only if their suffixes were equal.
pub proof fn lemma_repo_dirs_distinct(s1: Seq<char>, s2: Seq<char>)
    requires
        s1 != s2,
    ensures
        repo_dir(s1) != repo_dir(s2),
{
    let p = "/tmp/cjrepo_"@;
    if repo_dir(s1) == repo_dir(s2) {
        assert(s1 =~= repo_dir(s1).subrange(p.len() as int, repo_dir(s1).len() as int));
        assert(s2 =~= repo_dir(s2).subrange(p.len() as int, repo_dir(s2).len() as int));
    }
}

/// Distinct repository URLs are cached under distinct keys.
pub proof fn lemma_cache_keys_distinct(r1: Seq<char>, r2: Seq<char>)
    requires
        r1 != r2,
    ensures
        cache_key_of(r1) != cache_key_of(r2),
{
    let p = "cjlint_"@;
    if cache_key_of(r1) == cache_key_of(r2) {
        assert(r1 =~= cache_key_of(r1).subrange(p.len() as int, cache_key_of(r1).len() as int));
        assert(r2 =~= cache_key_of(r2).subrange(p.len() as int, cache_key_of(r2).len() as int));
    }
}

/// The cache after storing `value` as the analysis of `repo`.
pub open spec fn stored(cache: Map<Seq<char>, Seq<char>>, repo: Seq<char>, value: Seq<char>) -> Map<Seq<char>, Seq<char>> {
    cache.insert(cache_key_of(repo), value)
}

/// Analyzing the same repository twice leaves one entry for it, holding the
/// second result: the later write replaces the earlier one.
pub proof fn lemma_last_write_wins(cache: Map<Seq<char>, Seq<char>>, repo: Seq<char>, first: Seq<char>, second: Seq<char>)
    ensures
        stored(stored(cache, repo, first), repo, second) == stored(cache, repo, second),
        stored(stored(cache, repo, first), repo, second)[cache_key_of(repo)] == second,
        stored(stored(cache, repo, first), repo, second).dom() == cache.dom().insert(cache_key_of(repo)),
{
    assert(stored(stored(cache, repo, first), repo, second) =~= stored(cache, repo, second));
}

} // verus!
