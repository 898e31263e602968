use actions::links::{next_link, next_link_of_values};
use actions::model::{Run, Timestamp, Workflow, NegativeDuration};

fn run(id: usize, created: i64, updated: i64) -> Run {
    Run {
        id,
        head_branch: "main".into(),
        conclusion: Some("success".into()),
        event: "push".into(),
        status: "completed".into(),
        jobs_url: String::new(),
        logs_url: String::new(),
        artifacts_url: String::new(),
        cancel_url: String::new(),
        rerun_url: String::new(),
        created_at: Timestamp { secs: created },
        updated_at: Timestamp { secs: updated },
        html_url: String::new(),
    }
}

#[test]
fn parse_next_link_returns_none_when_link_is_absent() {
    assert_eq!(next_link(None), None)
}

#[test]
fn parse_next_link_returns_none_when_link_is_present() {
    assert_eq!(
        next_link(Some(r#"<https://api.github.com/test&page=2>; rel="next""#)),
        Some("https://api.github.com/test&page=2".into())
    )
}

#[test]
fn next_link_skips_other_relations() {
    let header = r#"<https://api.github.com/x?page=1>; rel="prev", <https://api.github.com/x?page=3>; rel="next", <https://api.github.com/x?page=9>; rel="last""#;
    assert_eq!(next_link(Some(header)), Some("https://api.github.com/x?page=3".into()));
}

#[test]
fn next_link_is_none_without_next_relation() {
    let header = r#"<https://api.github.com/x?page=1>; rel="prev""#;
    assert_eq!(next_link(Some(header)), None);
}

#[test]
fn next_link_is_none_for_garbage() {
    assert_eq!(next_link(Some("not a link header")), None);
}

#[test]
fn next_link_of_values_takes_first_next() {
    let values = vec![
        ("a".to_string(), vec!["prev".to_string()]),
        ("b".to_string(), vec!["last".to_string(), "next".to_string()]),
        ("c".to_string(), vec!["next".to_string()]),
    ];
    assert_eq!(next_link_of_values(&values), Some("b".to_string()));
    assert_eq!(next_link_of_values(&vec![]), None);
}

#[test]
fn filename_strips_workflows_directory() {
    let w = Workflow { id: 1, name: "ci".into(), state: "active".into(), path: ".github/workflows/ci.yml".into() };
    assert_eq!(w.filename(), "ci.yml");
    let other = Workflow { id: 2, name: "x".into(), state: "active".into(), path: "elsewhere/x.yml".into() };
    assert_eq!(other.filename(), "elsewhere/x.yml");
}

#[test]
fn duration_is_update_minus_creation() {
    assert_eq!(run(7, 100, 160).duration(), Ok(60));
    assert_eq!(run(7, 100, 100).duration(), Ok(0));
    assert_eq!(run(7, i64::MIN, i64::MAX).duration(), Ok(u64::MAX));
}

#[test]
fn negative_duration_is_an_error() {
    assert_eq!(run(9, 200, 100).duration(), Err(NegativeDuration { run_id: 9 }));
}
