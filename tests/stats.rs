use actions::model::{NegativeDuration, Run, Timestamp};
use actions::paginate::{always_continue, continue_while_recent, Paginator, Termination};
use actions::requests::{Method, Requests};
use actions::stats::{run_stats, RunStats};

fn run(id: usize, created: i64, updated: i64) -> Run {
    Run {
        id,
        head_branch: "main".into(),
        conclusion: None,
        event: "push".into(),
        status: "completed".into(),
        jobs_url: String::new(),
        logs_url: String::new(),
        artifacts_url: String::new(),
        cancel_url: String::new(),
        rerun_url: String::new(),
        created_at: Timestamp { secs: created },
        updated_at: Timestamp { secs: updated },
        html_url: String::new(),
    }
}

#[test]
fn empty_stream_gives_zero_stats() {
    let s = run_stats(&vec![], Timestamp { secs: 1000 }).unwrap();
    assert_eq!(s, RunStats { count: 0, total: 0, min: None, max: None });
}

#[test]
fn stats_count_only_runs_at_or_after_cutoff() {
    let runs = vec![run(1, 1000, 1030), run(2, 999, 5000), run(3, 2000, 2100), run(4, 1500, 1510)];
    let s = run_stats(&runs, Timestamp { secs: 1000 }).unwrap();
    assert_eq!(s, RunStats { count: 3, total: 140, min: Some(10), max: Some(100) });
}

#[test]
fn stats_of_runs_all_before_cutoff_are_zero() {
    let runs = vec![run(1, 10, 30), run(2, 20, 50)];
    assert_eq!(run_stats(&runs, Timestamp { secs: 100 }), Ok(RunStats { count: 0, total: 0, min: None, max: None }));
}

#[test]
fn negative_duration_of_a_counted_run_fails_the_stats() {
    let runs = vec![run(1, 1000, 1030), run(2, 1200, 1100)];
    assert_eq!(run_stats(&runs, Timestamp { secs: 1000 }), Err(NegativeDuration { run_id: 2 }));
    assert_eq!(run_stats(&runs, Timestamp { secs: 1300 }), Ok(RunStats { count: 0, total: 0, min: None, max: None }));
}

#[test]
fn continuation_policies() {
    let since = Timestamp { secs: 1000 };
    assert!(!continue_while_recent(&vec![run(1, 999, 1000), run(2, 10, 20)], since));
    assert!(continue_while_recent(&vec![run(1, 999, 1000), run(2, 1000, 1001)], since));
    assert!(!continue_while_recent(&vec![], since));
    assert!(always_continue::<Run>(&vec![]));
}

#[test]
fn two_page_listing_end_to_end() {
    let requests = Requests { token: "t".into() };
    let since = Timestamp { secs: 1000 };
    let pages: Vec<(Vec<Run>, Option<&str>)> = vec![
        (
            vec![run(1, 1200, 1260), run(2, 1100, 1130), run(3, 900, 950)],
            Some(r#"<https://api.github.com/runs?page=2>; rel="next""#),
        ),
        (vec![run(4, 800, 900)], None),
    ];
    let mut paginator = Paginator::new(requests.get("https://api.github.com/runs"));
    let mut issued = 0;
    let mut items: Vec<Run> = Vec::new();
    while let Some((url, method)) = paginator.pending().map(|req| (req.url.clone(), req.method)) {
        if issued == 1 {
            assert_eq!(url, "https://api.github.com/runs?page=2");
            assert_eq!(method, Method::Get);
        }
        let (runs, link) = &pages[issued];
        issued += 1;
        paginator.runs_page_fetched(&requests, *link, runs, since);
        items.extend(runs.iter().map(|r| run(r.id, r.created_at.secs, r.updated_at.secs)));
    }
    assert_eq!(issued, 2);
    assert_eq!(paginator.ended, Some(Termination::Exhausted));
    let s = run_stats(&items, since).unwrap();
    assert_eq!(s, RunStats { count: 2, total: 90, min: Some(30), max: Some(60) });
}

#[test]
fn old_page_stops_pagination() {
    let requests = Requests { token: "t".into() };
    let mut paginator = Paginator::new(requests.get("https://api.github.com/runs"));
    let old_page = vec![run(1, 10, 20)];
    paginator.runs_page_fetched(&requests, Some(r#"<https://api.github.com/runs?page=2>; rel="next""#), &old_page, Timestamp { secs: 1000 });
    assert!(paginator.is_done());
    assert_eq!(paginator.ended, Some(Termination::Declined));
    assert_eq!(paginator.pages, 1);
}

#[test]
fn recent_page_continues_to_next_link() {
    let requests = Requests { token: "t".into() };
    let mut paginator = Paginator::new(requests.get("https://api.github.com/runs"));
    let page = vec![run(1, 10, 20), run(2, 1000, 1001)];
    paginator.runs_page_fetched(&requests, Some(r#"<https://api.github.com/runs?page=2>; rel="next""#), &page, Timestamp { secs: 1000 });
    let next = paginator.pending().unwrap();
    assert_eq!(next.url, "https://api.github.com/runs?page=2");
    assert_eq!(next.method, Method::Get);
    assert_eq!(paginator.ended, None);
}

#[test]
fn failed_request_ends_listing_as_failed() {
    let requests = Requests { token: "t".into() };
    let mut paginator = Paginator::new(requests.get("https://api.github.com/runs"));
    assert!(!paginator.is_done());
    paginator.page_failed();
    assert!(paginator.pending().is_none());
    assert_eq!(paginator.ended, Some(Termination::Failed));
}
