use vstd::prelude::*;
use crate::cleanup::{RepoCleanup, Removal, after_removal};
use crate::model::{AnalysisResult, AnalysisResultItem, ApiResponse, same_but_file};
use crate::naming::{cache_key, cache_key_of, new_repo_dir, repo_dir, is_random_suffix, SUFFIX_LEN};
use crate::normalize::{normalize_findings, normalized_path};
use crate::request::{repo_from_uri, uri_repo};
use crate::text::concat_str;

verus! {

pub const STATUS_OK: u16 = 200;
pub const STATUS_BAD_REQUEST: u16 = 400;
pub const STATUS_INTERNAL_ERROR: u16 = 500;

/// A response to send: its HTTP status and its envelope.
#[derive(Debug)]
pub struct Reply {
    pub status: u16,
    pub body: ApiResponse<AnalysisResult>,
}

/// `r` reports a failure with status `status` and error text `msg`.
pub open spec fn is_failure(r: Reply, status: u16, msg: Seq<char>) -> bool {
    &&& r.status == status
    &&& !r.body.success
    &&& r.body.message is None
    &&& r.body.data is None
    &&& r.body.error matches Some(e) && e@ == msg
}

/// `r` reports success and carries `result`.
pub open spec fn is_success(r: Reply, result: AnalysisResult) -> bool {
    &&& r.status == STATUS_OK
    &&& r.body.success
    &&& r.body.message matches Some(m) && m@ == "Analysis completed successfully"@
    &&& r.body.data == Some(result)
    &&& r.body.error is None
}

/// A failure reply.
pub fn failure(status: u16, msg: String) -> (r: Reply)
    ensures
        is_failure(r, status, msg@),
{
    Reply { status, body: ApiResponse { success: false, message: None, data: None, error: Some(msg) } }
}

/// The success reply carrying the result of the run.
pub fn success(result: AnalysisResult) -> (r: Reply)
    ensures
        is_success(r, result),
{
    let message = String::from_str("Analysis completed successfully");
    Reply { status: STATUS_OK, body: ApiResponse { success: true, message: Some(message), data: Some(result), error: None } }
}

/// The reply to a request without a `repo` parameter.
pub fn missing_repo_reply() -> (r: Reply)
    ensures
        is_failure(r, STATUS_BAD_REQUEST, "repo query parameter is required"@),
{
    failure(STATUS_BAD_REQUEST, String::from_str("repo query parameter is required"))
}

/// A freshly cloned working copy: its path and the commit its HEAD resolved to.
#[derive(Debug)]
pub struct CloneResult {
    pub repo_path: String,
    pub commit_hash: String,
}

/// Where a request stands.
#[derive(Debug, Clone, Copy, PartialEq, Eq, Structural)]
pub enum Stage {
    Cloning,
    Locating,
    Analyzing,
    Parsing,
    Storing,
    Releasing,
    Done,
}

/// The outcome of the outside work that an [`Action`] asked for.
#[derive(Debug)]
pub enum Event {
    Cloned(Result<CloneResult, String>),
    Located(Result<String, String>),
    Analyzed(Result<String, String>),
    Parsed(Result<Vec<AnalysisResultItem>, String>, i64),
    Stored(Result<(), String>),
    Removed(Removal),
}

/// Outside work to perform next, or the response that ends the request.
#[derive(Debug)]
pub enum Action {
    /// Shallow-clone `url` into the new directory `dir`.
    Clone { url: String, dir: String },
    /// Find the manifest under `dir` and read its package name.
    Locate { dir: String },
    /// Run the analyzer over `dir` and hand back its raw report.
    Analyze { dir: String },
    /// Decode the raw report into findings, and take the current time.
    Parse { raw: String },
    /// Store the serialized result of the run under `key`.
    Store { key: String },
    /// Remove the working copy at `dir`.
    Remove { dir: String },
    /// Send this response; the request is over.
    Respond(Reply),
}

/// The event that each stage waits for.
pub open spec fn expects(stage: Stage, e: Event) -> bool {
    match stage {
        Stage::Cloning => e is Cloned,
        Stage::Locating => e is Located,
        Stage::Analyzing => e is Analyzed,
        Stage::Parsing => e is Parsed,
        Stage::Storing => e is Stored,
        Stage::Releasing => e is Removed,
        Stage::Done => false,
    }
}

/// One request being served.
#[derive(Debug)]
pub struct Pipeline {
    pub repo: String,
    pub stage: Stage,
    pub working_copy: Option<RepoCleanup>,
    pub commit: String,
    pub package_name: String,
    pub result: Option<AnalysisResult>,
    pub reply: Option<Reply>,
    pub warning: Option<String>,
}

/// A stage in which the working copy exists and has not been released.
pub open spec fn holds_working_copy(stage: Stage) -> bool {
    match stage {
        Stage::Locating | Stage::Analyzing | Stage::Parsing | Stage::Storing | Stage::Releasing => true,
        _ => false,
    }
}

/// After a failure at a stage that holds the working copy: the failure
/// reply waits while the working copy is removed, and nothing is stored.
pub open spec fn releasing_after_failure(old: Pipeline, new: Pipeline, msg: Seq<char>, a: Action) -> bool {
    &&& new.stage == Stage::Releasing
    &&& new.working_copy == old.working_copy
    &&& new.result is None
    &&& new.reply matches Some(r) && is_failure(r, STATUS_INTERNAL_ERROR, msg)
    &&& a matches Action::Remove { dir } && dir == old.working_copy.unwrap().repo_path
}

/// What one step does: the state and action that follow `old` on event `e`.
pub open spec fn step_post(old: Pipeline, e: Event, new: Pipeline, a: Action) -> bool {
    &&& new.repo == old.repo
    &&& e !is Cloned ==> new.commit == old.commit
    &&& e !is Located ==> new.package_name == old.package_name
    &&& match e {
        Event::Cloned(Ok(c)) => new.stage == Stage::Locating
            && new.working_copy == Some(RepoCleanup { repo_path: c.repo_path, cleaned: false })
            && new.commit == c.commit_hash
            && (a matches Action::Locate { dir } && dir == c.repo_path),
        Event::Cloned(Err(m)) => new.stage == Stage::Done
            && (a matches Action::Respond(r)
                && is_failure(r, STATUS_INTERNAL_ERROR, "Failed to clone repository: "@ + m@)),
        Event::Located(Ok(name)) => new.stage == Stage::Analyzing
            && new.working_copy == old.working_copy
            && new.package_name == name
            && (a matches Action::Analyze { dir } && dir == old.working_copy.unwrap().repo_path),
        Event::Located(Err(m)) => releasing_after_failure(
            old, new, "Failed to find package name: "@ + m@, a),
        Event::Analyzed(Ok(raw)) => new.stage == Stage::Parsing
            && new.working_copy == old.working_copy
            && a == Action::Parse { raw },
        Event::Analyzed(Err(m)) => releasing_after_failure(
            old, new, "Failed to run cjlint: "@ + m@, a),
        Event::Parsed(Ok(items), now) => new.stage == Stage::Storing
            && new.working_copy == old.working_copy
            && (new.result matches Some(res)
                && res.commit == old.commit
                && res.package_name == old.package_name
                && res.created_at == now
                && res.cjlint.len() == items.len()
                && forall|i: int| 0 <= i < items.len() ==> same_but_file(
                    #[trigger] items[i], res.cjlint[i],
                    normalized_path(items[i].file@, old.working_copy.unwrap().repo_path@)))
            && (a matches Action::Store { key } && key@ == cache_key_of(old.repo@)),
        Event::Parsed(Err(m), _) => releasing_after_failure(
            old, new, "Failed to parse cjlint output: "@ + m@, a),
        Event::Stored(Ok(_)) => new.stage == Stage::Releasing
            && new.working_copy == old.working_copy
            && new.result is None
            && (new.reply matches Some(r) && is_success(r, old.result.unwrap()))
            && (a matches Action::Remove { dir } && dir == old.working_copy.unwrap().repo_path),
        Event::Stored(Err(m)) => releasing_after_failure(
            old, new, "Failed to save to Redis: "@ + m@, a),
        Event::Removed(res) => new.stage == Stage::Done
            && new.working_copy == Some(after_removal(old.working_copy.unwrap(), res))
            && a == Action::Respond(old.reply.unwrap())
            && (match res {
                Removal::Failed(m) => new.warning matches Some(w)
                    && w@ == crate::cleanup::removal_error(m@),
                _ => new.warning is None,
            })
    }
}

impl Pipeline {
    /// Well-formed: the working copy is held exactly in the stages between
    /// acquiring and responding, unreleased until removal was reported; a
    /// stored result names the resolved commit and package; a reply waits
    /// exactly while releasing.
    pub open spec fn wf(&self) -> bool {
        &&& holds_working_copy(self.stage) ==> (self.working_copy matches Some(wc) && !wc.cleaned)
        &&& self.stage == Stage::Cloning ==> self.working_copy is None
        &&& self.reply is Some <==> self.stage == Stage::Releasing
        &&& (self.stage == Stage::Storing) == self.result is Some
        &&& self.result matches Some(r) ==> r.commit == self.commit && r.package_name == self.package_name
    }

    /// Starts serving a request with the given `repo` parameter: a missing
    /// parameter is answered at once; otherwise the repository is cloned
    /// into a fresh, randomly named directory.
    pub fn start(repo: Option<String>) -> (r: (Pipeline, Action))
        ensures
            r.0.wf(),
            r.0.warning is None,
            match repo {
                None => r.0.stage == Stage::Done
                    && (r.1 matches Action::Respond(reply)
                        && is_failure(reply, STATUS_BAD_REQUEST, "repo query parameter is required"@)),
                Some(url) => r.0.stage == Stage::Cloning && r.0.repo == url
                    && (r.1 matches Action::Clone { url: u, dir } && u == url
                        && exists|s: Seq<char>| is_random_suffix(s, SUFFIX_LEN as nat) && dir@ == repo_dir(s)),
            },
    {
        match repo {
            None => {
                let p = Pipeline {
                    repo: String::new(),
                    stage: Stage::Done,
                    working_copy: None,
                    commit: String::new(),
                    package_name: String::new(),
                    result: None,
                    reply: None,
                    warning: None,
                };
                (p, Action::Respond(missing_repo_reply()))
            },
            Some(url) => {
                let dir = new_repo_dir();
                let p = Pipeline {
                    repo: url.clone(),
                    stage: Stage::Cloning,
                    working_copy: None,
                    commit: String::new(),
                    package_name: String::new(),
                    result: None,
                    reply: None,
                    warning: None,
                };
                (p, Action::Clone { url, dir })
            },
        }
    }

    /// Starts serving a request from its URI: without a `repo` query
    /// parameter it is answered at once with a 400 reply; otherwise the
    /// repository that the parameter names is cloned.
    pub fn start_from_uri(uri: &str) -> (r: (Pipeline, Action))
        ensures
            r.0.wf(),
            match uri_repo(uri@) {
                None => r.0.stage == Stage::Done
                    && (r.1 matches Action::Respond(reply)
                        && is_failure(reply, STATUS_BAD_REQUEST, "repo query parameter is required"@)),
                Some(v) => r.0.stage == Stage::Cloning && r.0.repo@ == v
                    && (r.1 matches Action::Clone { url: u, dir } && u@ == v
                        && exists|s: Seq<char>| is_random_suffix(s, SUFFIX_LEN as nat) && dir@ == repo_dir(s)),
            },
    {
        Pipeline::start(repo_from_uri(uri))
    }

    /// Whether `e` is the event that the current stage waits for.
    pub fn accepts(&self, e: &Event) -> (r: bool)
        ensures
            r == expects(self.stage, *e),
    {
        match self.stage {
            Stage::Cloning => matches!(e, Event::Cloned(..)),
            Stage::Locating => matches!(e, Event::Located(..)),
            Stage::Analyzing => matches!(e, Event::Analyzed(..)),
            Stage::Parsing => matches!(e, Event::Parsed(..)),
            Stage::Storing => matches!(e, Event::Stored(..)),
            Stage::Releasing => matches!(e, Event::Removed(..)),
            Stage::Done => false,
        }
    }

    /// Advances the request by the outcome `e` of the last action. Each
    /// failure ends the request with a stage-specific error; once the
    /// working copy exists, it is removed before any response is sent, and
    /// a removal failure never replaces the response.
    pub fn step(&mut self, e: Event) -> (a: Action)
        requires
            old(self).wf(),
            expects(old(self).stage, e),
        ensures
            final(self).wf(),
            step_post(*old(self), e, *final(self), a),
    {
        match e {
            Event::Cloned(Ok(c)) => {
                let CloneResult { repo_path, commit_hash } = c;
                let dir = repo_path.clone();
                self.working_copy = Some(RepoCleanup::new(repo_path));
                self.commit = commit_hash;
                self.stage = Stage::Locating;
                Action::Locate { dir }
            },
            Event::Cloned(Err(m)) => {
                self.stage = Stage::Done;
                Action::Respond(failure(STATUS_INTERNAL_ERROR, concat_str("Failed to clone repository: ", m.as_str())))
            },
            Event::Located(Ok(name)) => {
                self.package_name = name;
                self.stage = Stage::Analyzing;
                Action::Analyze { dir: self.wc_dir() }
            },
            Event::Located(Err(m)) => self.fail(concat_str("Failed to find package name: ", m.as_str())),
            Event::Analyzed(Ok(raw)) => {
                self.stage = Stage::Parsing;
                Action::Parse { raw }
            },
            Event::Analyzed(Err(m)) => self.fail(concat_str("Failed to run cjlint: ", m.as_str())),
            Event::Parsed(Ok(items), now) => {
                let dir = self.wc_dir();
                let findings = normalize_findings(items, dir.as_str());
                let res = AnalysisResult::new(findings, now, self.commit.clone(), self.package_name.clone());
                self.result = Some(res);
                self.stage = Stage::Storing;
                Action::Store { key: cache_key(self.repo.as_str()) }
            },
            Event::Parsed(Err(m), _) => self.fail(concat_str("Failed to parse cjlint output: ", m.as_str())),
            Event::Stored(Ok(())) => {
                let res = self.result.take();
                let dir = self.wc_dir();
                match res {
                    Some(r) => {
                        self.reply = Some(success(r));
                    },
                    None => {},
                }
                self.stage = Stage::Releasing;
                Action::Remove { dir }
            },
            Event::Stored(Err(m)) => self.fail(concat_str("Failed to save to Redis: ", m.as_str())),
            Event::Removed(res) => {
                let wc = self.working_copy.take();
                match wc {
                    Some(mut w) => {
                        let outcome = w.cleanup(res);
                        self.warning = match outcome {
                            Ok(()) => None,
                            Err(m) => Some(m),
                        };
                        self.working_copy = Some(w);
                    },
                    None => {},
                }
                let reply = self.reply.take();
                self.stage = Stage::Done;
                match reply {
                    Some(r) => Action::Respond(r),
                    None => Action::Respond(missing_repo_reply()),
                }
            },
        }
    }

    fn fail(&mut self, msg: String) -> (a: Action)
        requires
            old(self).wf(),
            holds_working_copy(old(self).stage),
            old(self).stage != Stage::Releasing,
        ensures
            final(self).wf(),
            releasing_after_failure(*old(self), *final(self), msg@, a),
            final(self).repo == old(self).repo,
            final(self).commit == old(self).commit,
            final(self).package_name == old(self).package_name,
            final(self).warning == old(self).warning,
    {
        self.result = None;
        self.stage = Stage::Releasing;
        self.reply = Some(failure(STATUS_INTERNAL_ERROR, msg));
        Action::Remove { dir: self.wc_dir() }
    }

    fn wc_dir(&self) -> (r: String)
        requires
            self.working_copy is Some,
        ensures
            r == self.working_copy.unwrap().repo_path,
    {
        match &self.working_copy {
            Some(wc) => wc.repo_path.clone(),
            None => String::new(),
        }
    }
}

/// A request in which every stage succeeds stores exactly one result, under
/// the repository's cache key, and answers with that result after the
/// working copy was removed: its commit is the one the clone resolved, its
/// package name the one the manifest declared, its findings those the
/// analyzer reported, with paths made relative.
pub proof fn lemma_successful_run(
    p: Seq<Pipeline>,
    a: Seq<Action>,
    c: CloneResult,
    name: String,
    raw: String,
    items: Vec<AnalysisResultItem>,
    now: i64,
    removal: Removal,
)
    requires
        p.len() == 7,
        a.len() == 7,
        p[0].stage == Stage::Cloning,
        step_post(p[0], Event::Cloned(Ok(c)), p[1], a[1]),
        step_post(p[1], Event::Located(Ok(name)), p[2], a[2]),
        step_post(p[2], Event::Analyzed(Ok(raw)), p[3], a[3]),
        step_post(p[3], Event::Parsed(Ok(items), now), p[4], a[4]),
        step_post(p[4], Event::Stored(Ok(())), p[5], a[5]),
        step_post(p[5], Event::Removed(removal), p[6], a[6]),
    ensures
        (a[1] matches Action::Locate { dir } && dir == c.repo_path),
        (a[2] matches Action::Analyze { dir } && dir == c.repo_path),
        (a[3] matches Action::Parse { raw: r } && r == raw),
        (a[4] matches Action::Store { key } && key@ == cache_key_of(p[0].repo@)),
        (a[5] matches Action::Remove { dir } && dir == c.repo_path),
        p[6].stage == Stage::Done,
        (a[6] matches Action::Respond(r) && succeeded_with(r, c.commit_hash, name, now, items, c.repo_path)),
{
    let res = p[4].result.unwrap();
    assert(p[5].reply.unwrap().body.data == Some(res));
}

/// `r` is a success reply whose result names `commit` and `name`, was made
/// at `now`, and holds `items` with their paths made relative to `dir`.
pub open spec fn succeeded_with(
    r: Reply,
    commit: String,
    name: String,
    now: i64,
    items: Vec<AnalysisResultItem>,
    dir: String,
) -> bool {
    &&& r.status == STATUS_OK
    &&& r.body.success
    &&& r.body.data matches Some(res) && {
        &&& res.commit == commit
        &&& res.package_name == name
        &&& res.created_at == now
        &&& res.cjlint.len() == items.len()
        &&& forall|i: int| 0 <= i < items.len() ==> same_but_file(
            #[trigger] items[i], res.cjlint[i], normalized_path(items[i].file@, dir@))
    }
}

/// The error text that a failure event ends the request with, for the
/// failures that come after the working copy was acquired.
pub open spec fn failure_text(e: Event) -> Option<Seq<char>> {
    match e {
        Event::Located(Err(m)) => Some("Failed to find package name: "@ + m@),
        Event::Analyzed(Err(m)) => Some("Failed to run cjlint: "@ + m@),
        Event::Parsed(Err(m), _) => Some("Failed to parse cjlint output: "@ + m@),
        Event::Stored(Err(m)) => Some("Failed to save to Redis: "@ + m@),
        _ => None,
    }
}

/// A failure at any stage after the clone first removes the working copy
/// (and stores nothing), then answers with that stage's error, whatever
/// became of the removal.
pub proof fn lemma_failure_releases(
    p: Seq<Pipeline>,
    a: Seq<Action>,
    e: Event,
    removal: Removal,
)
    requires
        p.len() == 3,
        a.len() == 3,
        p[0].wf(),
        holds_working_copy(p[0].stage),
        failure_text(e) is Some,
        step_post(p[0], e, p[1], a[1]),
        step_post(p[1], Event::Removed(removal), p[2], a[2]),
    ensures
        (a[1] matches Action::Remove { dir } && dir == p[0].working_copy.unwrap().repo_path),
        p[1].result is None,
        p[2].stage == Stage::Done,
        p[2].working_copy == Some(after_removal(p[0].working_copy.unwrap(), removal)),
        (a[2] matches Action::Respond(r) && is_failure(r, STATUS_INTERNAL_ERROR, failure_text(e).unwrap())),
{
}

} // verus!
