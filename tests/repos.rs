use actions::model::{CodeSearchItem, Repository};
use actions::repos::group_repos;

fn hit(repo: &str, path: &str) -> CodeSearchItem {
    CodeSearchItem { name: path.into(), path: path.into(), repository: Repository { full_name: repo.into() } }
}

#[test]
fn hits_of_one_repository_form_one_record() {
    let repos = group_repos(&vec![hit("o/r", "a"), hit("o/r", "b")]);
    assert_eq!(repos.len(), 1);
    assert_eq!(repos[0].full_name, "o/r");
    assert_eq!(repos[0].workflows, vec!["a".to_string(), "b".to_string()]);
}

#[test]
fn hits_of_two_repositories_form_two_records() {
    let repos = group_repos(&vec![hit("o/r", "a"), hit("o/s", "b"), hit("o/r", "c")]);
    assert_eq!(repos.len(), 2);
    assert_eq!(repos[0].full_name, "o/r");
    assert_eq!(repos[0].workflows, vec!["a".to_string(), "c".to_string()]);
    assert_eq!(repos[1].full_name, "o/s");
    assert_eq!(repos[1].workflows, vec!["b".to_string()]);
}

#[test]
fn no_hits_no_records() {
    assert!(group_repos(&vec![]).is_empty());
}

#[test]
fn records_come_in_ascending_name_order() {
    let repos = group_repos(&vec![hit("z/b", "1"), hit("a/c", "2"), hit("m/x", "3"), hit("a/c", "4")]);
    let names: Vec<&str> = repos.iter().map(|r| r.full_name.as_str()).collect();
    assert_eq!(names, vec!["a/c", "m/x", "z/b"]);
    assert_eq!(repos[0].workflows, vec!["2".to_string(), "4".to_string()]);
}
