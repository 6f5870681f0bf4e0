use cjlint_refresh::pipeline::{Action, Pipeline, Stage};
use cjlint_refresh::request::{query_param, repo_from_uri};

fn pairs(list: &[(&str, &str)]) -> Vec<(String, String)> {
    list.iter().map(|(k, v)| (k.to_string(), v.to_string())).collect()
}

#[test]
fn query_param_found() {
    assert_eq!(query_param(&pairs(&[("a", "1"), ("repo", "https://g.com/x")]), "repo"), Some("https://g.com/x".to_string()));
}

#[test]
fn query_param_last_wins() {
    assert_eq!(query_param(&pairs(&[("repo", "one"), ("b", "2"), ("repo", "two")]), "repo"), Some("two".to_string()));
}

#[test]
fn query_param_absent() {
    assert_eq!(query_param(&pairs(&[("repository", "x")]), "repo"), None);
    assert_eq!(query_param(&Vec::new(), "repo"), None);
}

#[test]
fn repo_from_request_uri() {
    assert_eq!(
        repo_from_uri("http://localhost/api/refresh?repo=https%3A%2F%2Fgitcode.com%2Fa%2Fb.git"),
        Some("https://gitcode.com/a/b.git".to_string())
    );
    assert_eq!(repo_from_uri("http://localhost/api/refresh?other=1"), None);
    assert_eq!(repo_from_uri("http://localhost/api/refresh"), None);
}

#[test]
fn repo_from_relative_uri_is_none() {
    assert_eq!(repo_from_uri("/api/refresh?repo=x"), None);
}

#[test]
fn uri_without_repo_gets_bad_request() {
    let (p, a) = Pipeline::start_from_uri("https://example.com/api/refresh?foo=bar");
    assert_eq!(p.stage, Stage::Done);
    match a {
        Action::Respond(r) => {
            assert_eq!(r.status, 400);
            assert!(!r.body.success);
            assert_eq!(r.body.error.as_deref(), Some("repo query parameter is required"));
        }
        other => panic!("unexpected action {:?}", other),
    }
}

#[test]
fn uri_with_repo_starts_clone() {
    let (p, a) = Pipeline::start_from_uri("https://example.com/api/refresh?repo=https://g.com/x.git");
    assert_eq!(p.stage, Stage::Cloning);
    match a {
        Action::Clone { url, dir } => {
            assert_eq!(url, "https://g.com/x.git");
            assert!(dir.starts_with("/tmp/cjrepo_"));
        }
        other => panic!("unexpected action {:?}", other),
    }
}
