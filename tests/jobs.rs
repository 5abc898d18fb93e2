use dragonfly_client::job::{GetJobResponse, Job, JobRun};
use dragonfly_client::rules::RuleEngine;

fn job(urls: &[&str]) -> Job {
    Job {
        hash: "pkg-hash".to_string(),
        name: "requests".to_string(),
        version: "2.31.0".to_string(),
        distributions: urls.iter().map(|u| u.to_string()).collect(),
    }
}

fn names(v: &[&str]) -> Vec<String> {
    v.iter().map(|s| s.to_string()).collect()
}

fn sorted(mut v: Vec<String>) -> Vec<String> {
    v.sort();
    v
}

#[test]
fn no_job_response_gives_none() {
    let r = GetJobResponse::Error { detail: "no job".to_string() };
    assert!(r.into_job().is_none());
}

#[test]
fn job_response_gives_job() {
    let r = GetJobResponse::Job(job(&["http://a"]));
    let j = r.into_job().unwrap();
    assert_eq!(j.name, "requests");
    assert_eq!(j.version, "2.31.0");
    assert_eq!(j.hash, "pkg-hash");
    assert_eq!(j.distributions, vec!["http://a".to_string()]);
}

#[test]
fn only_last_distribution_succeeds() {
    let j = job(&["http://a", "http://b", "http://c"]);
    let mut run = JobRun::new(&j);
    run.record_artifact(None);
    run.record_artifact(None);
    run.record_artifact(Some(names(&["r2", "r1"])));
    let body = run.finish(Some(87), Some("http://x".to_string()));
    assert_eq!(body.name, "requests");
    assert_eq!(body.version, "2.31.0");
    assert_eq!(sorted(body.rules_matched), names(&["r1", "r2"]));
    assert_eq!(body.score, Some(87));
    assert_eq!(body.inspector_url, Some("http://x".to_string()));
}

#[test]
fn all_distributions_fail() {
    let j = job(&["http://a", "http://b"]);
    let mut run = JobRun::new(&j);
    run.record_artifact(None);
    run.record_artifact(None);
    let body = run.finish(Some(87), Some("http://x".to_string()));
    assert!(body.rules_matched.is_empty());
    assert_eq!(body.score, None);
    assert_eq!(body.inspector_url, None);
}

#[test]
fn job_without_distributions_has_no_score() {
    let run = JobRun::new(&job(&[]));
    let body = run.finish(Some(3), None);
    assert!(body.rules_matched.is_empty());
    assert_eq!(body.score, None);
}

#[test]
fn matches_are_unioned_without_duplicates() {
    let mut run = JobRun::new(&job(&["http://a", "http://b"]));
    run.record_artifact(Some(names(&["r1", "r2", "r1"])));
    run.record_artifact(Some(names(&["r2", "r3"])));
    let body = run.finish(None, None);
    assert_eq!(sorted(body.rules_matched), names(&["r1", "r2", "r3"]));
    assert_eq!(body.score, None);
}

#[test]
fn scanned_artifact_without_matches_keeps_score() {
    let mut run = JobRun::new(&job(&["http://a"]));
    run.record_artifact(Some(Vec::new()));
    let body = run.finish(Some(0), None);
    assert!(body.rules_matched.is_empty());
    assert_eq!(body.score, Some(0));
}

struct Marker;

impl RuleEngine for Marker {
    type Rules = Vec<String>;

    fn compile(&self, _text: &str) -> Result<Vec<String>, String> {
        Ok(Vec::new())
    }

    fn scan(&self, rules: &Vec<String>, data: &[u8]) -> Result<Vec<String>, String> {
        if data == b"bad" {
            Err("scan failed".to_string())
        } else if data.starts_with(b"MZ") {
            Ok(rules.clone())
        } else {
            Ok(Vec::new())
        }
    }
}

#[test]
fn scan_artifact_collects_entry_matches() {
    let rules = names(&["pe_header", "dropper"]);
    let mut run = JobRun::new(&job(&["http://a", "http://b"]));
    run.record_artifact(None);
    let entries = vec![b"plain".to_vec(), b"MZ\x90\x00".to_vec(), b"bad".to_vec(), b"MZ".to_vec()];
    run.scan_artifact(&Marker, &rules, &entries);
    let body = run.finish(Some(10), None);
    assert_eq!(sorted(body.rules_matched), names(&["dropper", "pe_header"]));
    assert_eq!(body.score, Some(10));
}

#[test]
fn scan_artifact_with_no_entries_counts_as_scanned() {
    let mut run = JobRun::new(&job(&["http://a"]));
    run.scan_artifact(&Marker, &Vec::new(), &Vec::new());
    let body = run.finish(Some(1), None);
    assert_eq!(body.score, Some(1));
    assert!(body.rules_matched.is_empty());
}

#[test]
fn record_scans_skips_failed_entries() {
    let mut run = JobRun::new(&job(&["http://a"]));
    run.record_scans(vec![Ok(names(&["a", "b"])), Err("timeout".to_string()), Ok(names(&["b", "c"]))]);
    let body = run.finish(Some(2), None);
    assert_eq!(sorted(body.rules_matched), names(&["a", "b", "c"]));
    assert_eq!(body.score, Some(2));
}

#[test]
fn record_scans_with_no_entries_counts_as_scanned() {
    let mut run = JobRun::new(&job(&["http://a"]));
    run.record_scans(Vec::new());
    let body = run.finish(Some(4), None);
    assert!(body.rules_matched.is_empty());
    assert_eq!(body.score, Some(4));
}
