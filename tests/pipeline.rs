use cjlint_refresh::analyzer::{analyzer_args, analyzer_env, check_exit, report_outcome, ExitInfo, ANALYZER_PATH};
use cjlint_refresh::cleanup::{Removal, RepoCleanup};
use cjlint_refresh::decimal::i32_to_decimal;
use cjlint_refresh::manifest::{find_package_name, first_manifest, manifest_pattern, package_name_of};
use cjlint_refresh::model::{AnalysisResultItem, DefectLevel};
use cjlint_refresh::naming::{cache_key, new_report_path, new_repo_dir, repo_dir_for, report_path_for};
use cjlint_refresh::normalize::{normalize_findings, normalize_path};
use cjlint_refresh::pipeline::{missing_repo_reply, Action, CloneResult, Event, Pipeline, Stage};

fn item(file: &str) -> AnalysisResultItem {
    AnalysisResultItem {
        file: file.to_string(),
        line: 3,
        column: 4,
        end_line: 5,
        end_column: 6,
        analyzer_name: "G.FMT.01".to_string(),
        description: "bad format".to_string(),
        defect_level: DefectLevel::Suggestions,
        defect_type: "format".to_string(),
        language: "cangjie".to_string(),
    }
}

fn started(repo: &str) -> (Pipeline, String) {
    let (p, a) = Pipeline::start(Some(repo.to_string()));
    let dir = match a {
        Action::Clone { url, dir } => {
            assert_eq!(url, repo);
            dir
        }
        other => panic!("unexpected action {:?}", other),
    };
    (p, dir)
}

fn cloned(repo: &str, path: &str, commit: &str) -> Pipeline {
    let (mut p, _) = started(repo);
    let a = p.step(Event::Cloned(Ok(CloneResult { repo_path: path.to_string(), commit_hash: commit.to_string() })));
    match a {
        Action::Locate { dir } => assert_eq!(dir, path),
        other => panic!("unexpected action {:?}", other),
    }
    p
}

#[test]
fn normalize_without_trailing_slash() {
    assert_eq!(normalize_path("/tmp/r/src/a.go", "/tmp/r"), "src/a.go");
}

#[test]
fn normalize_with_trailing_slash() {
    assert_eq!(normalize_path("/tmp/r/src/a.go", "/tmp/r/"), "src/a.go");
}

#[test]
fn normalize_foreign_path_unchanged() {
    assert_eq!(normalize_path("/home/x/src/a.go", "/tmp/r"), "/home/x/src/a.go");
}

#[test]
fn normalize_trailing_slash_always_appends_separator() {
    assert_eq!(normalize_path("/tmp/r//x", "/tmp/r/"), "x");
}

#[test]
fn release_of_missing_directory_is_no_error() {
    let mut c = RepoCleanup::new("/tmp/cjrepo_gone".to_string());
    assert_eq!(c.cleanup(Removal::NotFound), Ok(()));
    assert!(!c.needs_removal());
}

#[test]
fn normalize_prefix_without_separator() {
    assert_eq!(normalize_path("/tmp/rx/a.go", "/tmp/r"), "x/a.go");
    assert_eq!(normalize_path("/tmp/r", "/tmp/r"), "");
}

#[test]
fn normalize_findings_keeps_other_fields() {
    let out = normalize_findings(vec![item("/tmp/r/a.cj"), item("b.cj")], "/tmp/r");
    assert_eq!(out.len(), 2);
    assert_eq!(out[0].file, "a.cj");
    assert_eq!(out[1].file, "b.cj");
    assert_eq!(out[0].line, 3);
    assert_eq!(out[0].end_column, 6);
    assert_eq!(out[0].analyzer_name, "G.FMT.01");
    assert_eq!(out[0].defect_level, DefectLevel::Suggestions);
}

#[test]
fn missing_repo_parameter() {
    let (p, a) = Pipeline::start(None);
    assert_eq!(p.stage, Stage::Done);
    match a {
        Action::Respond(r) => {
            assert_eq!(r.status, 400);
            assert!(!r.body.success);
            assert_eq!(r.body.error.as_deref(), Some("repo query parameter is required"));
            assert!(r.body.message.is_none());
            assert!(r.body.data.is_none());
        }
        other => panic!("unexpected action {:?}", other),
    }
    assert_eq!(missing_repo_reply().status, 400);
}

#[test]
fn successful_run_reports_commit_and_package() {
    let mut p = cloned("https://example.com/a.git", "/tmp/cjrepo_abc", "deadbeef");
    match p.step(Event::Located(Ok("demo".to_string()))) {
        Action::Analyze { dir } => assert_eq!(dir, "/tmp/cjrepo_abc"),
        other => panic!("unexpected action {:?}", other),
    }
    match p.step(Event::Analyzed(Ok("[]".to_string()))) {
        Action::Parse { raw } => assert_eq!(raw, "[]"),
        other => panic!("unexpected action {:?}", other),
    }
    match p.step(Event::Parsed(Ok(vec![item("/tmp/cjrepo_abc/src/main.cj")]), 1700000000)) {
        Action::Store { key } => assert_eq!(key, "cjlint_https://example.com/a.git"),
        other => panic!("unexpected action {:?}", other),
    }
    let stored = p.result.as_ref().unwrap();
    assert_eq!(stored.commit, "deadbeef");
    assert_eq!(stored.package_name, "demo");
    assert_eq!(stored.created_at, 1700000000);
    assert_eq!(stored.cjlint[0].file, "src/main.cj");
    match p.step(Event::Stored(Ok(()))) {
        Action::Remove { dir } => assert_eq!(dir, "/tmp/cjrepo_abc"),
        other => panic!("unexpected action {:?}", other),
    }
    match p.step(Event::Removed(Removal::Done)) {
        Action::Respond(r) => {
            assert_eq!(r.status, 200);
            assert!(r.body.success);
            assert_eq!(r.body.message.as_deref(), Some("Analysis completed successfully"));
            let data = r.body.data.unwrap();
            assert_eq!(data.commit, "deadbeef");
            assert_eq!(data.package_name, "demo");
            assert_eq!(data.cjlint.len(), 1);
        }
        other => panic!("unexpected action {:?}", other),
    }
    assert_eq!(p.stage, Stage::Done);
    assert!(p.working_copy.as_ref().unwrap().cleaned);
    assert!(p.warning.is_none());
}

#[test]
fn clone_failure_responds_without_release() {
    let (mut p, _) = started("bad");
    match p.step(Event::Cloned(Err("invalid url".to_string()))) {
        Action::Respond(r) => {
            assert_eq!(r.status, 500);
            assert_eq!(r.body.error.as_deref(), Some("Failed to clone repository: invalid url"));
        }
        other => panic!("unexpected action {:?}", other),
    }
    assert!(p.working_copy.is_none());
}

#[test]
fn missing_manifest_still_releases() {
    let located = find_package_name(Ok(vec![]), Err(String::new()));
    assert_eq!(located, Err("No cjpm.toml found".to_string()));
    let mut p = cloned("r", "/tmp/cjrepo_m", "c1");
    match p.step(Event::Located(located)) {
        Action::Remove { dir } => assert_eq!(dir, "/tmp/cjrepo_m"),
        other => panic!("unexpected action {:?}", other),
    }
    assert_eq!(p.stage, Stage::Releasing);
    match p.step(Event::Removed(Removal::Done)) {
        Action::Respond(r) => {
            assert_eq!(r.status, 500);
            assert_eq!(r.body.error.as_deref(), Some("Failed to find package name: No cjpm.toml found"));
            assert!(r.body.data.is_none());
        }
        other => panic!("unexpected action {:?}", other),
    }
    assert!(p.working_copy.as_ref().unwrap().cleaned);
}

#[test]
fn release_twice_is_no_error() {
    let mut c = RepoCleanup::new("/tmp/cjrepo_x".to_string());
    assert!(c.needs_removal());
    assert_eq!(c.cleanup(Removal::Done), Ok(()));
    assert!(!c.needs_removal());
    assert_eq!(c.cleanup(Removal::Failed("gone".to_string())), Ok(()));
    assert_eq!(c.cleanup(Removal::NotFound), Ok(()));
    assert!(c.cleaned);
}

#[test]
fn failed_release_is_reported() {
    let mut c = RepoCleanup::new("/tmp/cjrepo_y".to_string());
    assert_eq!(c.cleanup(Removal::Failed("busy".to_string())), Err("Failed to remove repository directory: busy".to_string()));
    assert!(c.needs_removal());
}

#[test]
fn release_failure_does_not_mask_reply() {
    let mut p = cloned("r", "/tmp/cjrepo_w", "c1");
    p.step(Event::Located(Ok("n".to_string())));
    p.step(Event::Analyzed(Err("boom".to_string())));
    match p.step(Event::Removed(Removal::Failed("busy".to_string()))) {
        Action::Respond(r) => assert_eq!(r.body.error.as_deref(), Some("Failed to run cjlint: boom")),
        other => panic!("unexpected action {:?}", other),
    }
    assert_eq!(p.warning.as_deref(), Some("Failed to remove repository directory: busy"));
}

#[test]
fn analyzer_nonzero_exit_reports_code_and_skips_store() {
    let status = check_exit(Ok(ExitInfo { success: false, code: Some(2) }));
    assert_eq!(status, Err("cjlint command failed with exit code: 2".to_string()));
    let mut p = cloned("r", "/tmp/cjrepo_e", "c1");
    p.step(Event::Located(Ok("n".to_string())));
    match p.step(Event::Analyzed(status.map(|_| String::new()))) {
        Action::Remove { .. } => {}
        other => panic!("unexpected action {:?}", other),
    }
    assert!(p.result.is_none());
    match p.step(Event::Removed(Removal::Done)) {
        Action::Respond(r) => assert_eq!(
            r.body.error.as_deref(),
            Some("Failed to run cjlint: cjlint command failed with exit code: 2")
        ),
        other => panic!("unexpected action {:?}", other),
    }
}

#[test]
fn analyzer_exit_without_code() {
    assert_eq!(
        check_exit(Ok(ExitInfo { success: false, code: None })),
        Err("cjlint command failed with exit code: -1".to_string())
    );
    assert_eq!(check_exit(Ok(ExitInfo { success: true, code: Some(0) })), Ok(()));
    assert_eq!(check_exit(Err("no such file".to_string())), Err("Failed to execute cjlint: no such file".to_string()));
}

#[test]
fn analyzer_report_outcomes() {
    assert_eq!(report_outcome(Ok("[]".to_string()), Ok(())), Ok("[]".to_string()));
    assert_eq!(report_outcome(Err("e".to_string()), Ok(())), Err("Failed to read cjlint output: e".to_string()));
    assert_eq!(
        report_outcome(Ok("[]".to_string()), Err("d".to_string())),
        Err("Failed to delete cjlint output file: d".to_string())
    );
}

#[test]
fn analyzer_command_line() {
    assert_eq!(analyzer_args("/tmp/cjrepo_a", "/tmp/o.json"), vec!["-f", "/tmp/cjrepo_a", "-r", "json", "-o", "/tmp/o.json"]);
    let env = analyzer_env();
    assert_eq!(env[0], ("LD_LIBRARY_PATH".to_string(), "/tmp/cj".to_string()));
    assert_eq!(env[1], ("CANGJIE_HOME".to_string(), "/tmp/cj".to_string()));
    assert_eq!(ANALYZER_PATH, "/tmp/cj/tools/bin/cjlint");
}

#[test]
fn decimal_formatting() {
    assert_eq!(i32_to_decimal(0), "0");
    assert_eq!(i32_to_decimal(137), "137");
    assert_eq!(i32_to_decimal(-1), "-1");
    assert_eq!(i32_to_decimal(i32::MIN), "-2147483648");
    assert_eq!(i32_to_decimal(i32::MAX), "2147483647");
}

#[test]
fn re_analysis_uses_same_key() {
    assert_eq!(cache_key("https://g.com/x"), "cjlint_https://g.com/x");
    assert_eq!(cache_key("https://g.com/x"), cache_key("https://g.com/x"));
    assert_ne!(cache_key("https://g.com/x"), cache_key("https://g.com/y"));
}

#[test]
fn working_dir_names_are_distinct() {
    let mut names: Vec<String> = Vec::new();
    for _ in 0..1000 {
        let d = new_repo_dir();
        assert!(d.starts_with("/tmp/cjrepo_"));
        let suffix = &d["/tmp/cjrepo_".len()..];
        assert_eq!(suffix.len(), 10);
        assert!(suffix.chars().all(|c| c.is_ascii_alphanumeric()));
        names.push(d);
    }
    names.sort();
    names.dedup();
    assert_eq!(names.len(), 1000);
    let r = new_report_path();
    assert!(r.starts_with("/tmp/") && r.ends_with(".json"));
    assert_eq!(r.len(), "/tmp/".len() + 10 + ".json".len());
}

#[test]
fn fixed_names() {
    assert_eq!(repo_dir_for("abc"), "/tmp/cjrepo_abc");
    assert_eq!(report_path_for("abc"), "/tmp/abc.json");
    assert_eq!(manifest_pattern("/tmp/cjrepo_abc"), "/tmp/cjrepo_abc/**/cjpm.toml");
}

#[test]
fn manifest_package_name() {
    assert_eq!(package_name_of("[package]\nname = \"demo\"\n"), Ok("demo".to_string()));
    assert_eq!(
        package_name_of("[package]\nversion = \"1.0\"\n"),
        Err("package.name not found in cjpm.toml".to_string())
    );
    assert_eq!(package_name_of("[package]\nname = 3\n"), Err("package.name not found in cjpm.toml".to_string()));
    assert!(package_name_of("[package\nname = ").unwrap_err().starts_with("Failed to parse TOML: "));
    let found = vec!["/tmp/cjrepo_a/cjpm.toml".to_string()];
    assert_eq!(find_package_name(Ok(found.clone()), Ok("[package]\nname = \"p\"".to_string())), Ok("p".to_string()));
    assert_eq!(
        find_package_name(Ok(found.clone()), Err("denied".to_string())),
        Err("Failed to read cjpm.toml: denied".to_string())
    );
    assert_eq!(
        find_package_name(Err("bad pattern".to_string()), Ok(String::new())),
        Err("Failed to read glob pattern: bad pattern".to_string())
    );
    assert_eq!(find_package_name(Ok(found), Ok("[other]\nname = \"p\"".to_string())), Err("package.name not found in cjpm.toml".to_string()));
}

#[test]
fn first_manifest_choice() {
    assert_eq!(first_manifest(&vec![]), Err("No cjpm.toml found".to_string()));
    assert_eq!(first_manifest(&vec!["/a/cjpm.toml".to_string(), "/b/cjpm.toml".to_string()]), Ok("/a/cjpm.toml".to_string()));
}
