use dragonfly_client::engine::YaraEngine;
use dragonfly_client::error::DragonflyError;
use dragonfly_client::job::JobRun;
use dragonfly_client::job::Job;
use dragonfly_client::rules::{initial_state, GetRulesResponse, RuleEngine};

fn bundle(hash: &str, rules: &[(&str, &str)]) -> GetRulesResponse {
    GetRulesResponse {
        hash: hash.to_string(),
        rules: rules.iter().map(|(k, v)| (k.to_string(), v.to_string())).collect(),
    }
}

#[test]
fn yara_bundle_installs_and_matches() {
    let engine = YaraEngine { scan_timeout: 10 };
    let state = initial_state(&engine, bundle("abc", &[("r1", "rule r1 { condition: true }")])).ok().unwrap();
    assert_eq!(state.hash, "abc");
    let found = engine.scan(&state.rules, b"any content").unwrap();
    assert_eq!(found, vec!["r1".to_string()]);
}

#[test]
fn yara_string_rule_matches_only_its_content() {
    let engine = YaraEngine { scan_timeout: 10 };
    let b = bundle(
        "h2",
        &[
            ("evil", "rule evil { strings: $a = \"eval(base64\" condition: $a }"),
            ("plain", "rule plain { condition: false }"),
        ],
    );
    let state = initial_state(&engine, b).ok().unwrap();
    assert_eq!(engine.scan(&state.rules, b"x = eval(base64decode(y))").unwrap(), vec!["evil".to_string()]);
    assert!(engine.scan(&state.rules, b"harmless").unwrap().is_empty());
}

#[test]
fn yara_invalid_rule_fails_and_keeps_state() {
    let engine = YaraEngine { scan_timeout: 10 };
    let mut state = initial_state(&engine, bundle("one", &[("r1", "rule r1 { condition: true }")])).ok().unwrap();
    let r = state.sync_rules(&engine, bundle("two", &[("bad", "rule bad { condition: }")]));
    assert!(matches!(r, Err(DragonflyError::RuleCompilation(ref d)) if !d.is_empty()));
    assert_eq!(state.hash, "one");
    assert_eq!(engine.scan(&state.rules, b"x").unwrap(), vec!["r1".to_string()]);
}

#[test]
fn yara_scan_artifact_into_result() {
    let engine = YaraEngine { scan_timeout: 10 };
    let state = initial_state(&engine, bundle("abc", &[("r1", "rule r1 { condition: true }")])).ok().unwrap();
    let job = Job {
        hash: "p".to_string(),
        name: "pkg".to_string(),
        version: "1.0".to_string(),
        distributions: vec!["http://a".to_string()],
    };
    let mut run = JobRun::new(&job);
    run.scan_artifact(&engine, &state.rules, &vec![b"a".to_vec(), b"b".to_vec()]);
    let body = run.finish(Some(5), None);
    assert_eq!(body.rules_matched, vec!["r1".to_string()]);
    assert_eq!(body.score, Some(5));
}

#[test]
fn yara_refuses_text_with_zero_byte() {
    let engine = YaraEngine { scan_timeout: 10 };
    assert!(engine.compile("rule r1 { condition: true }\0").is_err());
    let r = initial_state(&engine, bundle("h", &[("r1", "rule r1 {\0 condition: true }")]));
    assert!(matches!(r, Err(DragonflyError::RuleCompilation(_))));
}

#[test]
fn yara_refuses_high_byte_escape_in_meta() {
    let engine = YaraEngine { scan_timeout: 10 };
    assert!(engine.compile("rule r { meta: a = \"\\xff\" condition: true }").is_err());
    assert!(engine.compile("rule r { meta: a = \"\\x8A\" condition: true }").is_err());
    assert!(engine.compile("rule r { meta: a = \"caf\u{e9}\" condition: true }").is_err());
}

#[test]
fn yara_accepts_high_bytes_in_strings_and_regexes() {
    let engine = YaraEngine { scan_timeout: 10 };
    let rules = engine
        .compile("rule call { strings: $s = \"\\xE8\\x00\" condition: $s }\nrule jpeg { strings: $j = /\\xff\\xd8/ condition: $j }")
        .ok()
        .unwrap();
    let mut found = engine.scan(&rules, b"ab\xe8\x00cd").unwrap();
    found.sort();
    assert_eq!(found, vec!["call".to_string()]);
    assert_eq!(engine.scan(&rules, b"\xff\xd8\xff").unwrap(), vec!["jpeg".to_string()]);
    assert!(engine.compile("rule c { // caf\u{e9} \\xff\n condition: true }").is_ok());
}

#[test]
fn yara_refuses_includes_and_non_ascii_imports() {
    let engine = YaraEngine { scan_timeout: 10 };
    assert!(engine.compile("include \"/x.yar\"\nrule r { condition: true }").is_err());
    let long = "\u{e9}".repeat(200);
    assert!(engine.compile(&format!("import \"{}\"\nrule r {{ condition: true }}", long)).is_err());
}

#[test]
fn yara_accepts_ascii_escape_in_meta() {
    let engine = YaraEngine { scan_timeout: 10 };
    let rules = engine.compile("rule r { meta: a = \"\\x41\" condition: true }").ok().unwrap();
    assert_eq!(engine.scan(&rules, b"z").unwrap(), vec!["r".to_string()]);
}

#[test]
fn rule_text_check_cases() {
    use_check(b"rule r { meta: a = \"x\" condition: true }", true);
    use_check(b"rule r { meta: a = \"\\xff\" condition: true }", false);
    use_check(b"rule r { strings: $a = \"\\xff\" condition: $a }", true);
    use_check(b"rule r { strings: $ = \"\\xff\" condition: any of them }", true);
    use_check(b"rule r { meta: a = \"q\\\"\\xff\" condition: true }", false);
    use_check(b"rule r { meta: a = \"\\\\x8\" condition: true }", true);
    use_check(b"/* \"\\xff */ rule r { condition: true }", true);
    use_check(b"rule r { strings: $a = /\"\\xff/ condition: $a and \"\\xff\" == \"\" }", false);
    use_check(b"rule r { condition: true }\x00", false);
    use_check(b"", true);
}

fn use_check(text: &[u8], expected: bool) {
    assert_eq!(dragonfly_client::engine::check_rule_text(text), expected, "{:?}", String::from_utf8_lossy(text));
}
