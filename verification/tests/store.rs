use rob::models::{Group, GroupRow, Job, Test, TestNoJobs, User};
use rob::store::{DbAction, DbError, DbEvent, Op, Record, Step, Task};

fn s(x: &str) -> String {
    x.to_string()
}

fn user(ucid: &str, instructor: bool) -> User {
    User {
        ucid: s(ucid),
        instructor,
        google_id: s("g1"),
        google_email: s("x@y.z"),
        google_verified_email: true,
        google_name: s("X"),
        google_given_name: s("X"),
        google_family_name: s("Y"),
        google_picture: s("p"),
        google_locale: s("en"),
        google_hd: s("y.z"),
    }
}

fn test_row(id: i32) -> TestNoJobs {
    TestNoJobs {
        id,
        name: s("t"),
        description: s("d"),
        memsnapshot: None,
        tests_image: Some(s("img")),
        base_image: s("b"),
        command: s("c"),
        command_timeout: 5,
        prompt: s("p"),
    }
}

fn test_of(id: i32, timeout: i32) -> Test {
    Test {
        id,
        name: s("t"),
        description: s("d"),
        memsnapshot: None,
        tests_image: Some(s("img")),
        base_image: s("b"),
        command: s("c"),
        command_timeout: timeout,
        prompt: s("p"),
        jobs: vec![9],
    }
}

fn query(step: Step) -> DbAction {
    match step {
        Step::Query(a) => a,
        Step::Done(r) => panic!("expected a query, got {:?}", r),
    }
}

fn done(step: Step) -> Result<Record, DbError> {
    match step {
        Step::Done(r) => r,
        Step::Query(a) => panic!("expected a result, got {:?}", a),
    }
}

#[test]
fn create_group_inserts_row_then_each_member_once() {
    let g = Group { id: 0, name: s("team"), git_url: s("git@x"), members: vec![s("a"), s("b"), s("a")] };
    let (t, step) = Group::create(g);
    assert_eq!(query(step), DbAction::InsertGroup { name: s("team"), git_url: s("git@x") });
    let (t, step) = t.resume(DbEvent::Group(GroupRow { id: 12, name: s("team"), git_url: s("git@x") }));
    assert_eq!(query(step), DbAction::InsertMember { group_id: 12, ucid: s("a") });
    let (t, step) = t.resume(DbEvent::Executed);
    assert_eq!(query(step), DbAction::InsertMember { group_id: 12, ucid: s("b") });
    let (_t, step) = t.resume(DbEvent::Executed);
    assert_eq!(
        done(step),
        Ok(Record::Group(Group { id: 12, name: s("team"), git_url: s("git@x"), members: vec![s("a"), s("b")] }))
    );
}

#[test]
fn create_group_without_members() {
    let g = Group { id: 3, name: s("solo"), git_url: s("u"), members: vec![] };
    let (t, _) = Group::create(g);
    let (_t, step) = t.resume(DbEvent::Group(GroupRow { id: 4, name: s("solo"), git_url: s("u") }));
    assert_eq!(done(step), Ok(Record::Group(Group { id: 4, name: s("solo"), git_url: s("u"), members: vec![] })));
}

#[test]
fn failed_member_insert_ends_create() {
    let g = Group { id: 0, name: s("team"), git_url: s("u"), members: vec![s("a"), s("b")] };
    let (t, _) = Group::create(g);
    let (t, _) = t.resume(DbEvent::Group(GroupRow { id: 1, name: s("team"), git_url: s("u") }));
    let (_t, step) = t.resume(DbEvent::Failed);
    assert_eq!(done(step), Err(DbError));
}

#[test]
fn unexpected_answer_ends_operation() {
    let (t, _) = Job::find(2);
    let (_t, step) = t.resume(DbEvent::Executed);
    assert_eq!(done(step), Err(DbError));
}

#[test]
fn find_group_reads_row_then_members() {
    let (t, step) = Group::find(5);
    assert_eq!(query(step), DbAction::SelectGroup { id: 5 });
    let (t, step) = t.resume(DbEvent::Group(GroupRow { id: 5, name: s("n"), git_url: s("u") }));
    assert_eq!(query(step), DbAction::SelectMembers { group_id: 5 });
    let (_t, step) = t.resume(DbEvent::Members(vec![s("z"), s("y"), s("z")]));
    assert_eq!(done(step), Ok(Record::Group(Group { id: 5, name: s("n"), git_url: s("u"), members: vec![s("z"), s("y")] })));
}

#[test]
fn list_groups_reads_members_of_each_row() {
    let (t, step) = Group::list();
    assert_eq!(query(step), DbAction::SelectGroups);
    let rows = vec![
        GroupRow { id: 1, name: s("a"), git_url: s("ua") },
        GroupRow { id: 2, name: s("b"), git_url: s("ub") },
    ];
    let (t, step) = t.resume(DbEvent::Groups(rows));
    assert_eq!(query(step), DbAction::SelectMembers { group_id: 1 });
    let (t, step) = t.resume(DbEvent::Members(vec![s("m")]));
    assert_eq!(query(step), DbAction::SelectMembers { group_id: 2 });
    let (_t, step) = t.resume(DbEvent::Members(vec![]));
    assert_eq!(
        done(step),
        Ok(Record::Groups(vec![
            Group { id: 1, name: s("a"), git_url: s("ua"), members: vec![s("m")] },
            Group { id: 2, name: s("b"), git_url: s("ub"), members: vec![] },
        ]))
    );
}

#[test]
fn list_groups_when_there_are_none() {
    let (t, _) = Group::list();
    let (_t, step) = t.resume(DbEvent::Groups(vec![]));
    assert_eq!(done(step), Ok(Record::Groups(vec![])));
}

#[test]
fn update_group_rewrites_memberships() {
    let g = Group { id: 8, name: s("n"), git_url: s("u"), members: vec![s("k"), s("k")] };
    let (t, step) = Group::update(g);
    assert_eq!(query(step), DbAction::UpdateGroup { id: 8, name: s("n"), git_url: s("u") });
    let (t, step) = t.resume(DbEvent::Executed);
    assert_eq!(query(step), DbAction::DeleteMembers { group_id: 8 });
    let (t, step) = t.resume(DbEvent::Executed);
    assert_eq!(query(step), DbAction::InsertMember { group_id: 8, ucid: s("k") });
    let (_t, step) = t.resume(DbEvent::Executed);
    assert_eq!(done(step), Ok(Record::Group(Group { id: 8, name: s("n"), git_url: s("u"), members: vec![s("k")] })));
}

#[test]
fn delete_group_deletes_row_then_memberships() {
    let (t, step) = Group::delete(6);
    assert_eq!(query(step), DbAction::DeleteGroup { id: 6 });
    let (t, step) = t.resume(DbEvent::Executed);
    assert_eq!(query(step), DbAction::DeleteMembers { group_id: 6 });
    let (_t, step) = t.resume(DbEvent::Executed);
    assert_eq!(done(step), Ok(Record::Id(6)));
}

#[test]
fn new_job_is_queued() {
    let job = Job {
        id: 99,
        created_at: 0,
        started_at: Some(1),
        completed_at: None,
        status: s("DONE"),
        group_id: 3,
        test_id: 4,
        output: s("o"),
    };
    let (t, step) = Job::create(job);
    assert_eq!(query(step), DbAction::InsertJob { status: s("QUEUED"), group_id: 3, test_id: 4 });
    let stored = Job {
        id: 1,
        created_at: 10,
        started_at: None,
        completed_at: None,
        status: s("QUEUED"),
        group_id: 3,
        test_id: 4,
        output: s(""),
    };
    let (_t, step) = t.resume(DbEvent::Job(stored.clone()));
    assert_eq!(done(step), Ok(Record::Job(stored)));
}

#[test]
fn job_reads_and_delete() {
    let (t, step) = Job::list();
    assert_eq!(query(step), DbAction::SelectJobs);
    let (_t, step) = t.resume(DbEvent::Jobs(vec![]));
    assert_eq!(done(step), Ok(Record::Jobs(vec![])));
    let (t, step) = Job::delete(3);
    assert_eq!(query(step), DbAction::DeleteJob { id: 3 });
    let (_t, step) = t.resume(DbEvent::Executed);
    assert_eq!(done(step), Ok(Record::Id(3)));
}

#[test]
fn create_test_stores_absolute_timeout_and_has_no_jobs() {
    let (t, step) = Test::create(test_of(0, -20));
    assert_eq!(query(step), DbAction::InsertTest(test_of(0, 20)));
    let (_t, step) = t.resume(DbEvent::Test(test_row(11)));
    let mut expected = test_of(11, 5);
    expected.jobs = vec![];
    assert_eq!(done(step), Ok(Record::Test(expected)));
}

#[test]
fn update_test_stores_absolute_timeout() {
    let (t, step) = Test::update(test_of(2, -7));
    assert_eq!(query(step), DbAction::UpdateTest(test_of(2, 7)));
    let (_t, step) = t.resume(DbEvent::Executed);
    assert_eq!(done(step), Ok(Record::Test(test_of(2, -7))));
}

#[test]
fn find_test_reads_its_jobs() {
    let (t, step) = Test::find(4);
    assert_eq!(query(step), DbAction::SelectTest { id: 4 });
    let (t, step) = t.resume(DbEvent::Test(test_row(4)));
    assert_eq!(query(step), DbAction::SelectJobIds { test_id: 4 });
    let (_t, step) = t.resume(DbEvent::JobIds(vec![9]));
    assert_eq!(done(step), Ok(Record::Test(test_of(4, 5))));
}

#[test]
fn list_tests_reads_jobs_of_each_row() {
    let (t, _) = Test::list();
    let (t, step) = t.resume(DbEvent::Tests(vec![test_row(1), test_row(2)]));
    assert_eq!(query(step), DbAction::SelectJobIds { test_id: 1 });
    let (t, step) = t.resume(DbEvent::JobIds(vec![9]));
    assert_eq!(query(step), DbAction::SelectJobIds { test_id: 2 });
    let (_t, step) = t.resume(DbEvent::JobIds(vec![9]));
    assert_eq!(done(step), Ok(Record::Tests(vec![test_of(1, 5), test_of(2, 5)])));
}

#[test]
fn delete_test_yields_its_id() {
    let (t, step) = Test::delete(12);
    assert_eq!(query(step), DbAction::DeleteTest { id: 12 });
    let (_t, step) = t.resume(DbEvent::Executed);
    assert_eq!(done(step), Ok(Record::Id(12)));
}

#[test]
fn user_operations() {
    let (t, step) = User::find(s("abc"));
    assert_eq!(query(step), DbAction::SelectUser { ucid: s("abc") });
    let (_t, step) = t.resume(DbEvent::User(user("abc", false)));
    assert_eq!(done(step), Ok(Record::User(user("abc", false))));

    let (t, step) = User::create(user("n", false));
    assert_eq!(query(step), DbAction::InsertUser(user("n", false)));
    let (_t, step) = t.resume(DbEvent::Executed);
    assert_eq!(done(step), Ok(Record::User(user("n", false))));

    let (t, step) = User::update(user("n", true));
    assert_eq!(query(step), DbAction::UpdateUser(user("n", true)));
    let (_t, step) = t.resume(DbEvent::User(user("n", true)));
    assert_eq!(done(step), Ok(Record::User(user("n", true))));

    let (t, step) = User::list();
    assert_eq!(query(step), DbAction::SelectUsers);
    let (_t, step) = t.resume(DbEvent::Users(vec![user("a", true)]));
    assert_eq!(done(step), Ok(Record::Users(vec![user("a", true)])));
}

#[test]
fn start_by_op_matches_owner_methods() {
    let (_t, step) = Task::start(Op::FindUser(s("q")));
    assert_eq!(query(step), DbAction::SelectUser { ucid: s("q") });
}

#[test]
fn group_read_back_has_written_members() {
    let g = Group { id: 0, name: s("n"), git_url: s("u"), members: vec![s("a"), s("b"), s("a")] };
    let (t, _) = Group::create(g);
    let (t, _) = t.resume(DbEvent::Group(GroupRow { id: 3, name: s("n"), git_url: s("u") }));
    let (t, _) = t.resume(DbEvent::Executed);
    let (_t, step) = t.resume(DbEvent::Executed);
    let written = match done(step) {
        Ok(Record::Group(g)) => g.members,
        other => panic!("unexpected {:?}", other),
    };
    let (t, _) = Group::find(3);
    let (t, _) = t.resume(DbEvent::Group(GroupRow { id: 3, name: s("n"), git_url: s("u") }));
    let (_t, step) = t.resume(DbEvent::Members(vec![s("b"), s("a"), s("b")]));
    let read = match done(step) {
        Ok(Record::Group(g)) => g.members,
        other => panic!("unexpected {:?}", other),
    };
    let mut w = written.clone();
    let mut r = read.clone();
    w.sort();
    r.sort();
    assert_eq!(w, r);
    assert_eq!(read, vec![s("b"), s("a")]);
}
