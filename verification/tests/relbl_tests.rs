use relbl::anchor_query;
use relbl::format_query;
use relbl::format_replace;
use relbl::get_matching_files;
use relbl::plan_renames;
use relbl::resolve_target;
use relbl::CandidateEntry;
use relbl::EntryKind;
use relbl::RenamePlan;
use relbl::RenameRun;

fn entry(name: &str, kind: EntryKind) -> CandidateEntry {
    CandidateEntry { name: name.to_string(), kind }
}

#[test]
fn test_format_query() {
    // All of these user queries should result in the same query.
    // Query is "one or more 'a'";
    // '^' represents start of input, '$' represents end of input.
    let queries = vec![
        format_query("a+").unwrap(),
        format_query("^a+").unwrap(),
        format_query("a+$").unwrap(),
        format_query("^a+$").unwrap(),
    ];
    for query in queries {
        assert!(query.is_match("a"));
        assert!(query.is_match("aa"));
        assert!(!query.is_match("baa"));
        assert!(!query.is_match("aab"));
        assert!(!query.is_match("baab"));
    }
}

#[test]
fn anchor_query_values() {
    assert_eq!(anchor_query("a+"), "^a+$");
    assert_eq!(anchor_query("^a+"), "^a+$");
    assert_eq!(anchor_query("a+$"), "^a+$");
    assert_eq!(anchor_query("^a+$"), "^a+$");
    assert_eq!(anchor_query(""), "^$");
    // The anchor-presence check is a literal-character check: a trailing
    // escaped dollar is taken as an anchor.
    assert_eq!(anchor_query("a\\$"), "^a\\$");
}

#[test]
fn anchoring_is_idempotent_on_examples() {
    for raw in ["a+", "^a+", "a+$", "^a+$", "", "^", "$", "(.*)\\.txt"] {
        let once = anchor_query(raw);
        let twice = anchor_query(&once);
        assert_eq!(once, twice);
    }
}

#[test]
fn pattern_keeps_anchored_source() {
    let pattern = format_query("a+").unwrap();
    assert_eq!(pattern.as_str(), "^a+$");
}

#[test]
fn invalid_pattern_rejected() {
    // An unbalanced group does not compile; the error carries a message.
    let err = format_query("(unbalanced").unwrap_err();
    assert!(!err.message.is_empty());
    assert!(format_query("(").is_err());
}

#[test]
fn test_get_files() {
    // Only finds "a.txt": "c.md" does not match the pattern and "b" is a
    // directory, not a regular file.
    let pattern = format_query(".*.txt").unwrap();
    let entries = vec![
        entry("a.txt", EntryKind::File),
        entry("c.md", EntryKind::File),
        entry("b", EntryKind::NotFile),
    ];
    let found = get_matching_files(entries, &pattern);
    let names: Vec<String> = found.into_iter().map(|e| e.name).collect();
    assert_eq!(names, vec!["a.txt".to_string()]);
}

#[test]
fn type_lookup_failure_fails_open() {
    // An entry whose type could not be determined is retained rather than
    // silently dropped.
    let pattern = format_query(".*.txt").unwrap();
    let entries = vec![
        entry("odd.txt", EntryKind::TypeUnknown),
        entry("dir.txt", EntryKind::NotFile),
    ];
    let found = get_matching_files(entries, &pattern);
    assert_eq!(found.len(), 1);
    assert_eq!(found[0].name, "odd.txt");
    assert!(matches!(found[0].kind, EntryKind::TypeUnknown));
}

#[test]
fn format_replace_is_identity() {
    assert_eq!(format_replace("${1}-text.txt"), "${1}-text.txt");
}

#[test]
fn capture_group_substitution() {
    let pattern = format_query("(.*)\\.txt").unwrap();
    let replace = format_replace("${1}-text.txt");
    let entries = vec![
        entry("a.txt", EntryKind::File),
        entry("c.md", EntryKind::File),
        entry("b", EntryKind::NotFile),
    ];
    let files = get_matching_files(entries, &pattern);
    let plans = plan_renames(files, &pattern, &replace);
    assert_eq!(plans.len(), 1);
    assert_eq!(plans[0].old_name, "a.txt");
    assert_eq!(plans[0].new_name, "a-text.txt");
}

#[test]
fn default_target_directory() {
    assert_eq!(resolve_target(None), ".");
    assert_eq!(resolve_target(Some("some/dir".to_string())), "some/dir");
}

#[test]
fn first_failure_stops_run() {
    let plans = vec![
        RenamePlan { old_name: "a".to_string(), new_name: "x".to_string() },
        RenamePlan { old_name: "b".to_string(), new_name: "y".to_string() },
        RenamePlan { old_name: "c".to_string(), new_name: "z".to_string() },
    ];
    let mut run = RenameRun::new(plans);
    let first = run.current().unwrap();
    assert_eq!(first.old_name, "a");
    assert_eq!(first.new_name, "x");
    run.record_success();
    let second = run.current().unwrap();
    assert_eq!(second.old_name, "b");
    run.record_failure();
    // Once a failure is recorded, no further plan is offered and the run
    // does not report completion.
    assert!(run.current().is_none());
    assert!(!run.completed());
}

#[test]
fn run_completes_when_every_rename_succeeds() {
    let plans = vec![
        RenamePlan { old_name: "a".to_string(), new_name: "x".to_string() },
        RenamePlan { old_name: "b".to_string(), new_name: "y".to_string() },
    ];
    let mut run = RenameRun::new(plans);
    while let Some(_plan) = run.current() {
        run.record_success();
    }
    assert!(run.completed());
}
