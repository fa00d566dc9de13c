use rob::models::{add_jobs, distinct_members, normalize_timeout, Test, TestNoJobs};
use rob::text::ucid_from_email;

fn row() -> TestNoJobs {
    TestNoJobs {
        id: 7,
        name: "lab1".to_string(),
        description: "first lab".to_string(),
        memsnapshot: Some("snap".to_string()),
        tests_image: None,
        base_image: "ubuntu".to_string(),
        command: "make test".to_string(),
        command_timeout: 30,
        prompt: "$ ".to_string(),
    }
}

fn test_with_timeout(t: i32) -> Test {
    let mut test = add_jobs(&row(), vec![]);
    test.command_timeout = t;
    test
}

#[test]
fn add_jobs_copies_every_field() {
    let t = add_jobs(&row(), vec![3, 1, 4]);
    assert_eq!(t.id, 7);
    assert_eq!(t.name, "lab1");
    assert_eq!(t.description, "first lab");
    assert_eq!(t.memsnapshot, Some("snap".to_string()));
    assert_eq!(t.tests_image, None);
    assert_eq!(t.base_image, "ubuntu");
    assert_eq!(t.command, "make test");
    assert_eq!(t.command_timeout, 30);
    assert_eq!(t.prompt, "$ ");
    assert_eq!(t.jobs, vec![3, 1, 4]);
}

#[test]
fn add_jobs_with_no_jobs() {
    assert_eq!(add_jobs(&row(), vec![]).jobs, Vec::<i32>::new());
}

#[test]
fn negative_timeout_becomes_positive() {
    assert_eq!(normalize_timeout(test_with_timeout(-45)).command_timeout, 45);
}

#[test]
fn positive_timeout_is_kept() {
    assert_eq!(normalize_timeout(test_with_timeout(45)).command_timeout, 45);
    assert_eq!(normalize_timeout(test_with_timeout(0)).command_timeout, 0);
    assert_eq!(normalize_timeout(test_with_timeout(i32::MAX)).command_timeout, i32::MAX);
    assert_eq!(normalize_timeout(test_with_timeout(i32::MIN + 1)).command_timeout, i32::MAX);
}

#[test]
fn normalizing_twice_changes_nothing() {
    let once = normalize_timeout(test_with_timeout(-9));
    let twice = normalize_timeout(once.clone());
    assert_eq!(once, twice);
}

#[test]
fn members_are_kept_once_in_first_order() {
    let ms = vec!["bob".to_string(), "amy".to_string(), "bob".to_string(), "cal".to_string(), "amy".to_string()];
    assert_eq!(distinct_members(ms), vec!["bob".to_string(), "amy".to_string(), "cal".to_string()]);
}

#[test]
fn no_members_stay_none() {
    assert_eq!(distinct_members(vec![]), Vec::<String>::new());
}

#[test]
fn ucid_is_lowercase_local_part() {
    assert_eq!(ucid_from_email("John.Doe@NJIT.edu"), "john.doe");
}

#[test]
fn ucid_stops_at_first_at_sign() {
    assert_eq!(ucid_from_email("ab@cd@ef"), "ab");
    assert_eq!(ucid_from_email("@x.org"), "");
}

#[test]
fn ucid_without_at_sign_is_whole_address() {
    assert_eq!(ucid_from_email("NoDomain"), "nodomain");
    assert_eq!(ucid_from_email(""), "");
}
