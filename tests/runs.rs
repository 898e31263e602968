use actions::dates::{date_or_first_of_the_month, parse_timestamp, since_day};
use actions::filter::{filtered_workflows, name_matches, name_matches_folded};
use actions::model::Workflow;
use chrono::{Datelike, TimeZone, Utc};

fn workflow(id: usize, name: &str) -> Workflow {
    Workflow { id, name: name.into(), state: "completed".into(), path: ".github/workflows".into() }
}

#[test]
fn date_or_first_of_the_month_parses_dates() {
    let since = date_or_first_of_the_month(Some("2020-03-12"));
    assert_eq!(since.secs, Utc.with_ymd_and_hms(2020, 3, 12, 0, 0, 0).unwrap().timestamp())
}

#[test]
fn date_defaults_to_first_of_current_month() {
    let now = Utc::now();
    let first = Utc.with_ymd_and_hms(now.year(), now.month(), 1, 0, 0, 0).unwrap().timestamp();
    assert_eq!(date_or_first_of_the_month(None).secs, first);
    assert_eq!(date_or_first_of_the_month(Some("yesterday")).secs, first);
    assert_eq!(date_or_first_of_the_month(Some("2020-02-30")).secs, first);
}

#[test]
fn since_day_prefers_parsed_date() {
    assert_eq!(since_day(Some((2020, 3, 12)), (2024, 7)), (2020, 3, 12));
    assert_eq!(since_day(None, (2024, 7)), (2024, 7, 1));
}

#[test]
fn filtered_workflows_filters_workflows_by_name() {
    assert_eq!(
        filtered_workflows(Some("CI".into()), vec![workflow(1, "ci test"), workflow(2, "test")]),
        vec![workflow(1, "ci test")]
    );
}

#[test]
fn no_filter_keeps_every_workflow_in_order() {
    let kept = filtered_workflows(None, vec![workflow(3, "b"), workflow(1, "a"), workflow(2, "c")]);
    assert_eq!(kept.iter().map(|w| w.id).collect::<Vec<_>>(), vec![3, 1, 2]);
}

#[test]
fn name_matching_ignores_case() {
    assert!(name_matches(Some("CI"), "ci test"));
    assert!(!name_matches(Some("CI"), "test"));
    assert!(name_matches(Some("Test"), "CI TEST"));
    assert!(name_matches(None, "anything"));
    assert!(name_matches(Some(""), "anything"));
}

#[test]
fn folded_matching_is_plain_containment() {
    assert!(name_matches_folded("ci", "my ci build"));
    assert!(!name_matches_folded("CI", "my ci build"));
    assert!(name_matches_folded("", ""));
    assert!(!name_matches_folded("long", "lon"));
}

#[test]
fn api_timestamps_parse_to_epoch_seconds() {
    assert_eq!(parse_timestamp("2020-03-12T08:30:00Z").map(|t| t.secs), Some(1584001800));
    assert_eq!(parse_timestamp("1970-01-01T00:00:10+00:00").map(|t| t.secs), Some(10));
    assert_eq!(parse_timestamp("2020-03-12"), None);
}

#[test]
fn parsed_dates_give_exact_epoch_seconds() {
    assert_eq!(date_or_first_of_the_month(Some("2020-03-12")).secs, 1583971200);
    assert_eq!(date_or_first_of_the_month(Some("2000-02-29")).secs, 951782400);
    assert_eq!(date_or_first_of_the_month(Some("1969-12-31")).secs, -86400);
    assert_eq!(date_or_first_of_the_month(Some("1970-01-01")).secs, 0);
}
