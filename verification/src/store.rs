//! The database work behind each operation on the records, as a state
//! machine: an operation starts with a query, each answer of the database
//! gives the next query or the operation's result. The caller runs the
//! queries; the order of the queries and what is made of their answers is
//! decided here.
use vstd::prelude::*;
use vstd::string::*;
use crate::models::{
    add_jobs, distinct, distinct_members, normalize_timeout, normalized, with_jobs, Group,
    GroupRow, GroupRowView, GroupView, Job, JobView, Test, TestNoJobs, TestView, User, UserView,
};

verus! {

/// The operations on the stored records.
#[derive(Debug, PartialEq, Eq)]
pub enum Op {
    CreateGroup(Group),
    FindGroup(i32),
    ListGroups,
    UpdateGroup(Group),
    DeleteGroup(i32),
    CreateJob(Job),
    FindJob(i32),
    ListJobs,
    DeleteJob(i32),
    CreateTest(Test),
    FindTest(i32),
    ListTests,
    UpdateTest(Test),
    DeleteTest(i32),
    FindUser(String),
    ListUsers,
    UpdateUser(User),
    CreateUser(User),
}

/// One statement for the database.
#[derive(Debug, PartialEq, Eq)]
pub enum DbAction {
    /// `INSERT INTO groups (name, git_url) ... RETURNING *`
    InsertGroup { name: String, git_url: String },
    /// `SELECT * FROM groups WHERE id = $1`
    SelectGroup { id: i32 },
    /// `SELECT * FROM groups`
    SelectGroups,
    /// `UPDATE groups SET name, git_url WHERE id`
    UpdateGroup { id: i32, name: String, git_url: String },
    /// `DELETE FROM groups WHERE id = $1`
    DeleteGroup { id: i32 },
    /// `SELECT ucid FROM group_membership WHERE id = $1`
    SelectMembers { group_id: i32 },
    /// `INSERT INTO group_membership (id, ucid)`
    InsertMember { group_id: i32, ucid: String },
    /// `DELETE FROM group_membership WHERE id = $1`
    DeleteMembers { group_id: i32 },
    /// `INSERT INTO jobs (status, group_id, test_id) ... RETURNING *`
    InsertJob { status: String, group_id: i32, test_id: i32 },
    /// `SELECT * FROM jobs WHERE id = $1`
    SelectJob { id: i32 },
    /// `SELECT * FROM jobs`
    SelectJobs,
    /// `DELETE FROM jobs WHERE id = $1`
    DeleteJob { id: i32 },
    /// `INSERT INTO tests (...) ... RETURNING *` (the id and jobs are not written)
    InsertTest(Test),
    /// `SELECT * FROM tests WHERE id = $1`
    SelectTest { id: i32 },
    /// `SELECT * FROM tests`
    SelectTests,
    /// `UPDATE tests SET ... WHERE id` (the jobs are not written)
    UpdateTest(Test),
    /// `DELETE FROM tests WHERE id = $1`
    DeleteTest { id: i32 },
    /// `SELECT id FROM jobs WHERE test_id = $1`
    SelectJobIds { test_id: i32 },
    /// `SELECT * FROM users WHERE ucid = $1`
    SelectUser { ucid: String },
    /// `SELECT * FROM users`
    SelectUsers,
    /// `UPDATE users SET ... WHERE ucid = $1 RETURNING *`
    UpdateUser(User),
    /// `INSERT INTO users (...)`
    InsertUser(User),
}

/// What the database answered to the last statement.
#[derive(Debug, PartialEq, Eq)]
pub enum DbEvent {
    /// The statement failed, or a single row was asked for and none came.
    Failed,
    /// A statement that returns no rows ran.
    Executed,
    Group(GroupRow),
    Groups(Vec<GroupRow>),
    Members(Vec<String>),
    Job(Job),
    Jobs(Vec<Job>),
    Test(TestNoJobs),
    Tests(Vec<TestNoJobs>),
    JobIds(Vec<i32>),
    User(User),
    Users(Vec<User>),
}

/// What an operation produced.
#[derive(Debug, PartialEq, Eq)]
pub enum Record {
    Group(Group),
    Groups(Vec<Group>),
    Job(Job),
    Jobs(Vec<Job>),
    Test(Test),
    Tests(Vec<Test>),
    User(User),
    Users(Vec<User>),
    Id(i32),
}

/// An operation ended without a result: the database failed or answered
/// something else than was asked.
#[derive(Debug, Clone, Copy, PartialEq, Eq)]
pub struct DbError;

/// What the caller does next.
#[derive(Debug, PartialEq, Eq)]
pub enum Step {
    Query(DbAction),
    Done(Result<Record, DbError>),
}

#[derive(Debug)]
enum State {
    AwaitGroupRow { members: Vec<String> },
    AddMembers { group: Group, next: usize },
    AwaitUpdate { group: Group },
    AwaitClear { group: Group },
    AwaitFoundGroup { id: i32 },
    AwaitFoundMembers { row: GroupRow },
    AwaitGroupRows,
    AwaitListedMembers { rows: Vec<GroupRow>, groups: Vec<Group> },
    AwaitGroupDelete { id: i32 },
    AwaitExecuted { record: Record },
    AwaitJob,
    AwaitJobs,
    AwaitNewTest,
    AwaitFoundTest { id: i32 },
    AwaitTestJobs { row: TestNoJobs },
    AwaitTestRows,
    AwaitListedJobIds { rows: Vec<TestNoJobs>, tests: Vec<Test> },
    AwaitUser,
    AwaitUsers,
    Finished,
}

/// An operation under way.
#[derive(Debug)]
pub struct Task {
    state: State,
}

// ---------------------------------------------------------------- views

pub enum OpView {
    CreateGroup(GroupView),
    FindGroup(i32),
    ListGroups,
    UpdateGroup(GroupView),
    DeleteGroup(i32),
    CreateJob(JobView),
    FindJob(i32),
    ListJobs,
    DeleteJob(i32),
    CreateTest(TestView),
    FindTest(i32),
    ListTests,
    UpdateTest(TestView),
    DeleteTest(i32),
    FindUser(Seq<char>),
    ListUsers,
    UpdateUser(UserView),
    CreateUser(UserView),
}

pub enum DbActionView {
    InsertGroup { name: Seq<char>, git_url: Seq<char> },
    SelectGroup { id: i32 },
    SelectGroups,
    UpdateGroup { id: i32, name: Seq<char>, git_url: Seq<char> },
    DeleteGroup { id: i32 },
    SelectMembers { group_id: i32 },
    InsertMember { group_id: i32, ucid: Seq<char> },
    DeleteMembers { group_id: i32 },
    InsertJob { status: Seq<char>, group_id: i32, test_id: i32 },
    SelectJob { id: i32 },
    SelectJobs,
    DeleteJob { id: i32 },
    InsertTest(TestView),
    SelectTest { id: i32 },
    SelectTests,
    UpdateTest(TestView),
    DeleteTest { id: i32 },
    SelectJobIds { test_id: i32 },
    SelectUser { ucid: Seq<char> },
    SelectUsers,
    UpdateUser(UserView),
    InsertUser(UserView),
}

pub enum DbEventView {
    Failed,
    Executed,
    Group(GroupRowView),
    Groups(Seq<GroupRowView>),
    Members(Seq<Seq<char>>),
    Job(JobView),
    Jobs(Seq<JobView>),
    Test(TestView),
    Tests(Seq<TestView>),
    JobIds(Seq<i32>),
    User(UserView),
    Users(Seq<UserView>),
}

pub enum RecordView {
    Group(GroupView),
    Groups(Seq<GroupView>),
    Job(JobView),
    Jobs(Seq<JobView>),
    Test(TestView),
    Tests(Seq<TestView>),
    User(UserView),
    Users(Seq<UserView>),
    Id(i32),
}

pub enum StepView {
    Query(DbActionView),
    Done(Option<RecordView>),
}

pub enum TaskView {
    AwaitGroupRow { members: Seq<Seq<char>> },
    AddMembers { group: GroupView, next: int },
    AwaitUpdate { group: GroupView },
    AwaitClear { group: GroupView },
    AwaitFoundGroup { id: i32 },
    AwaitFoundMembers { row: GroupRowView },
    AwaitGroupRows,
    AwaitListedMembers { rows: Seq<GroupRowView>, groups: Seq<GroupView> },
    AwaitGroupDelete { id: i32 },
    AwaitExecuted { record: RecordView },
    AwaitJob,
    AwaitJobs,
    AwaitNewTest,
    AwaitFoundTest { id: i32 },
    AwaitTestJobs { row: TestView },
    AwaitTestRows,
    AwaitListedJobIds { rows: Seq<TestView>, tests: Seq<TestView> },
    AwaitUser,
    AwaitUsers,
    Finished,
}

impl View for Op {
    type V = OpView;

    open spec fn view(&self) -> OpView {
        match self {
            Op::CreateGroup(g) => OpView::CreateGroup(g@),
            Op::FindGroup(id) => OpView::FindGroup(*id),
            Op::ListGroups => OpView::ListGroups,
            Op::UpdateGroup(g) => OpView::UpdateGroup(g@),
            Op::DeleteGroup(id) => OpView::DeleteGroup(*id),
            Op::CreateJob(j) => OpView::CreateJob(j@),
            Op::FindJob(id) => OpView::FindJob(*id),
            Op::ListJobs => OpView::ListJobs,
            Op::DeleteJob(id) => OpView::DeleteJob(*id),
            Op::CreateTest(t) => OpView::CreateTest(t@),
            Op::FindTest(id) => OpView::FindTest(*id),
            Op::ListTests => OpView::ListTests,
            Op::UpdateTest(t) => OpView::UpdateTest(t@),
            Op::DeleteTest(id) => OpView::DeleteTest(*id),
            Op::FindUser(u) => OpView::FindUser(u@),
            Op::ListUsers => OpView::ListUsers,
            Op::UpdateUser(u) => OpView::UpdateUser(u@),
            Op::CreateUser(u) => OpView::CreateUser(u@),
        }
    }
}

impl View for DbAction {
    type V = DbActionView;

    open spec fn view(&self) -> DbActionView {
        match self {
            DbAction::InsertGroup { name, git_url } => DbActionView::InsertGroup {
                name: name@,
                git_url: git_url@,
            },
            DbAction::SelectGroup { id } => DbActionView::SelectGroup { id: *id },
            DbAction::SelectGroups => DbActionView::SelectGroups,
            DbAction::UpdateGroup { id, name, git_url } => DbActionView::UpdateGroup {
                id: *id,
                name: name@,
                git_url: git_url@,
            },
            DbAction::DeleteGroup { id } => DbActionView::DeleteGroup { id: *id },
            DbAction::SelectMembers { group_id } => DbActionView::SelectMembers {
                group_id: *group_id,
            },
            DbAction::InsertMember { group_id, ucid } => DbActionView::InsertMember {
                group_id: *group_id,
                ucid: ucid@,
            },
            DbAction::DeleteMembers { group_id } => DbActionView::DeleteMembers {
                group_id: *group_id,
            },
            DbAction::InsertJob { status, group_id, test_id } => DbActionView::InsertJob {
                status: status@,
                group_id: *group_id,
                test_id: *test_id,
            },
            DbAction::SelectJob { id } => DbActionView::SelectJob { id: *id },
            DbAction::SelectJobs => DbActionView::SelectJobs,
            DbAction::DeleteJob { id } => DbActionView::DeleteJob { id: *id },
            DbAction::InsertTest(t) => DbActionView::InsertTest(t@),
            DbAction::SelectTest { id } => DbActionView::SelectTest { id: *id },
            DbAction::SelectTests => DbActionView::SelectTests,
            DbAction::UpdateTest(t) => DbActionView::UpdateTest(t@),
            DbAction::DeleteTest { id } => DbActionView::DeleteTest { id: *id },
            DbAction::SelectJobIds { test_id } => DbActionView::SelectJobIds { test_id: *test_id },
            DbAction::SelectUser { ucid } => DbActionView::SelectUser { ucid: ucid@ },
            DbAction::SelectUsers => DbActionView::SelectUsers,
            DbAction::UpdateUser(u) => DbActionView::UpdateUser(u@),
            DbAction::InsertUser(u) => DbActionView::InsertUser(u@),
        }
    }
}

impl View for DbEvent {
    type V = DbEventView;

    open spec fn view(&self) -> DbEventView {
        match self {
            DbEvent::Failed => DbEventView::Failed,
            DbEvent::Executed => DbEventView::Executed,
            DbEvent::Group(r) => DbEventView::Group(r@),
            DbEvent::Groups(rs) => DbEventView::Groups(rs.deep_view()),
            DbEvent::Members(ms) => DbEventView::Members(ms.deep_view()),
            DbEvent::Job(j) => DbEventView::Job(j@),
            DbEvent::Jobs(js) => DbEventView::Jobs(js.deep_view()),
            DbEvent::Test(t) => DbEventView::Test(t@),
            DbEvent::Tests(ts) => DbEventView::Tests(ts.deep_view()),
            DbEvent::JobIds(ids) => DbEventView::JobIds(ids@),
            DbEvent::User(u) => DbEventView::User(u@),
            DbEvent::Users(us) => DbEventView::Users(us.deep_view()),
        }
    }
}

impl View for Record {
    type V = RecordView;

    open spec fn view(&self) -> RecordView {
        match self {
            Record::Group(g) => RecordView::Group(g@),
            Record::Groups(gs) => RecordView::Groups(gs.deep_view()),
            Record::Job(j) => RecordView::Job(j@),
            Record::Jobs(js) => RecordView::Jobs(js.deep_view()),
            Record::Test(t) => RecordView::Test(t@),
            Record::Tests(ts) => RecordView::Tests(ts.deep_view()),
            Record::User(u) => RecordView::User(u@),
            Record::Users(us) => RecordView::Users(us.deep_view()),
            Record::Id(id) => RecordView::Id(*id),
        }
    }
}

impl View for Step {
    type V = StepView;

    open spec fn view(&self) -> StepView {
        match self {
            Step::Query(a) => StepView::Query(a@),
            Step::Done(Ok(r)) => StepView::Done(Some(r@)),
            Step::Done(Err(_)) => StepView::Done(None),
        }
    }
}

impl View for State {
    type V = TaskView;

    closed spec fn view(&self) -> TaskView {
        match self {
            State::AwaitGroupRow { members } => TaskView::AwaitGroupRow {
                members: members.deep_view(),
            },
            State::AddMembers { group, next } => TaskView::AddMembers {
                group: group@,
                next: *next as int,
            },
            State::AwaitUpdate { group } => TaskView::AwaitUpdate { group: group@ },
            State::AwaitClear { group } => TaskView::AwaitClear { group: group@ },
            State::AwaitFoundGroup { id } => TaskView::AwaitFoundGroup { id: *id },
            State::AwaitFoundMembers { row } => TaskView::AwaitFoundMembers { row: row@ },
            State::AwaitGroupRows => TaskView::AwaitGroupRows,
            State::AwaitListedMembers { rows, groups } => TaskView::AwaitListedMembers {
                rows: rows.deep_view(),
                groups: groups.deep_view(),
            },
            State::AwaitGroupDelete { id } => TaskView::AwaitGroupDelete { id: *id },
            State::AwaitExecuted { record } => TaskView::AwaitExecuted { record: record@ },
            State::AwaitJob => TaskView::AwaitJob,
            State::AwaitJobs => TaskView::AwaitJobs,
            State::AwaitNewTest => TaskView::AwaitNewTest,
            State::AwaitFoundTest { id } => TaskView::AwaitFoundTest { id: *id },
            State::AwaitTestJobs { row } => TaskView::AwaitTestJobs { row: row@ },
            State::AwaitTestRows => TaskView::AwaitTestRows,
            State::AwaitListedJobIds { rows, tests } => TaskView::AwaitListedJobIds {
                rows: rows.deep_view(),
                tests: tests.deep_view(),
            },
            State::AwaitUser => TaskView::AwaitUser,
            State::AwaitUsers => TaskView::AwaitUsers,
            State::Finished => TaskView::Finished,
        }
    }
}

impl View for Task {
    type V = TaskView;

    closed spec fn view(&self) -> TaskView {
        self.state@
    }
}

// ------------------------------------------------------- the machine

/// The status a new job is created with.
pub open spec fn queued() -> Seq<char> {
    "QUEUED"@
}

/// An operation the server can run: a test's timeout must have an absolute
/// value (`i32::abs` panics on `i32::MIN`).
pub open spec fn admissible(op: OpView) -> bool {
    match op {
        OpView::CreateTest(t) => t.command_timeout != i32::MIN,
        OpView::UpdateTest(t) => t.command_timeout != i32::MIN,
        _ => true,
    }
}

/// A group made of a stored row and a list of members.
pub open spec fn group_of(row: GroupRowView, members: Seq<Seq<char>>) -> GroupView {
    GroupView { id: row.id, name: row.name, git_url: row.git_url, members: members }
}

/// A group whose members are counted once each.
pub open spec fn with_distinct_members(g: GroupView) -> GroupView {
    GroupView { members: distinct(g.members), ..g }
}

pub open spec fn finish(r: RecordView) -> (TaskView, StepView) {
    (TaskView::Finished, StepView::Done(Some(r)))
}

pub open spec fn fail() -> (TaskView, StepView) {
    (TaskView::Finished, StepView::Done(None))
}

/// Writes the members of `g` from the `next`-th on, one statement each,
/// then yields `g`.
pub open spec fn add_members_from(g: GroupView, next: int) -> (TaskView, StepView) {
    if next < g.members.len() {
        (
            TaskView::AddMembers { group: g, next: next + 1 },
            StepView::Query(DbActionView::InsertMember { group_id: g.id, ucid: g.members[next] }),
        )
    } else {
        finish(RecordView::Group(g))
    }
}

/// Reads the job ids of the `done.len()`-th test row, or yields all tests.
pub open spec fn list_tests_from(rows: Seq<TestView>, done: Seq<TestView>) -> (TaskView, StepView) {
    if done.len() < rows.len() {
        (
            TaskView::AwaitListedJobIds { rows, tests: done },
            StepView::Query(DbActionView::SelectJobIds { test_id: rows[done.len() as int].id }),
        )
    } else {
        finish(RecordView::Tests(done))
    }
}

/// Reads the members of the `done.len()`-th group row, or yields all groups.
pub open spec fn list_groups_from(rows: Seq<GroupRowView>, done: Seq<GroupView>) -> (TaskView, StepView) {
    if done.len() < rows.len() {
        (
            TaskView::AwaitListedMembers { rows, groups: done },
            StepView::Query(DbActionView::SelectMembers { group_id: rows[done.len() as int].id }),
        )
    } else {
        finish(RecordView::Groups(done))
    }
}

/// The first statement of each operation.
pub open spec fn start_spec(op: OpView) -> (TaskView, StepView) {
    match op {
        OpView::CreateGroup(g) => (
            TaskView::AwaitGroupRow { members: distinct(g.members) },
            StepView::Query(DbActionView::InsertGroup { name: g.name, git_url: g.git_url }),
        ),
        OpView::FindGroup(id) => (
            TaskView::AwaitFoundGroup { id },
            StepView::Query(DbActionView::SelectGroup { id }),
        ),
        OpView::ListGroups => (TaskView::AwaitGroupRows, StepView::Query(DbActionView::SelectGroups)),
        OpView::UpdateGroup(g) => (
            TaskView::AwaitUpdate { group: with_distinct_members(g) },
            StepView::Query(DbActionView::UpdateGroup { id: g.id, name: g.name, git_url: g.git_url }),
        ),
        OpView::DeleteGroup(id) => (
            TaskView::AwaitGroupDelete { id },
            StepView::Query(DbActionView::DeleteGroup { id }),
        ),
        OpView::CreateJob(j) => (
            TaskView::AwaitJob,
            StepView::Query(
                DbActionView::InsertJob { status: queued(), group_id: j.group_id, test_id: j.test_id },
            ),
        ),
        OpView::FindJob(id) => (TaskView::AwaitJob, StepView::Query(DbActionView::SelectJob { id })),
        OpView::ListJobs => (TaskView::AwaitJobs, StepView::Query(DbActionView::SelectJobs)),
        OpView::DeleteJob(id) => (
            TaskView::AwaitExecuted { record: RecordView::Id(id) },
            StepView::Query(DbActionView::DeleteJob { id }),
        ),
        OpView::CreateTest(t) => (
            TaskView::AwaitNewTest,
            StepView::Query(DbActionView::InsertTest(normalized(t))),
        ),
        OpView::FindTest(id) => (
            TaskView::AwaitFoundTest { id },
            StepView::Query(DbActionView::SelectTest { id }),
        ),
        OpView::ListTests => (TaskView::AwaitTestRows, StepView::Query(DbActionView::SelectTests)),
        OpView::UpdateTest(t) => (
            TaskView::AwaitExecuted { record: RecordView::Test(t) },
            StepView::Query(DbActionView::UpdateTest(normalized(t))),
        ),
        OpView::DeleteTest(id) => (
            TaskView::AwaitExecuted { record: RecordView::Id(id) },
            StepView::Query(DbActionView::DeleteTest { id }),
        ),
        OpView::FindUser(ucid) => (
            TaskView::AwaitUser,
            StepView::Query(DbActionView::SelectUser { ucid }),
        ),
        OpView::ListUsers => (TaskView::AwaitUsers, StepView::Query(DbActionView::SelectUsers)),
        OpView::UpdateUser(u) => (TaskView::AwaitUser, StepView::Query(DbActionView::UpdateUser(u))),
        OpView::CreateUser(u) => (
            TaskView::AwaitExecuted { record: RecordView::User(u) },
            StepView::Query(DbActionView::InsertUser(u)),
        ),
    }
}

/// What each answer of the database leads to. An answer that is not the one
/// awaited, `Failed` among them, ends the operation without a result.
pub open spec fn next_spec(t: TaskView, e: DbEventView) -> (TaskView, StepView) {
    match (t, e) {
        (TaskView::AwaitGroupRow { members }, DbEventView::Group(row)) => add_members_from(
            group_of(row, members),
            0,
        ),
        (TaskView::AddMembers { group, next }, DbEventView::Executed) => add_members_from(
            group,
            next,
        ),
        (TaskView::AwaitUpdate { group }, DbEventView::Executed) => (
            TaskView::AwaitClear { group },
            StepView::Query(DbActionView::DeleteMembers { group_id: group.id }),
        ),
        (TaskView::AwaitClear { group }, DbEventView::Executed) => add_members_from(group, 0),
        (TaskView::AwaitFoundGroup { id }, DbEventView::Group(row)) => (
            TaskView::AwaitFoundMembers { row },
            StepView::Query(DbActionView::SelectMembers { group_id: id }),
        ),
        (TaskView::AwaitFoundMembers { row }, DbEventView::Members(ms)) => finish(
            RecordView::Group(group_of(row, distinct(ms))),
        ),
        (TaskView::AwaitGroupRows, DbEventView::Groups(rows)) => list_groups_from(rows, seq![]),
        (
            TaskView::AwaitListedMembers { rows, groups },
            DbEventView::Members(ms),
        ) => list_groups_from(
            rows,
            groups.push(group_of(rows[groups.len() as int], distinct(ms))),
        ),
        (TaskView::AwaitGroupDelete { id }, DbEventView::Executed) => (
            TaskView::AwaitExecuted { record: RecordView::Id(id) },
            StepView::Query(DbActionView::DeleteMembers { group_id: id }),
        ),
        (TaskView::AwaitExecuted { record }, DbEventView::Executed) => finish(record),
        (TaskView::AwaitJob, DbEventView::Job(j)) => finish(RecordView::Job(j)),
        (TaskView::AwaitJobs, DbEventView::Jobs(js)) => finish(RecordView::Jobs(js)),
        (TaskView::AwaitNewTest, DbEventView::Test(row)) => finish(
            RecordView::Test(with_jobs(row, seq![])),
        ),
        (TaskView::AwaitFoundTest { id }, DbEventView::Test(row)) => (
            TaskView::AwaitTestJobs { row },
            StepView::Query(DbActionView::SelectJobIds { test_id: id }),
        ),
        (TaskView::AwaitTestJobs { row }, DbEventView::JobIds(ids)) => finish(
            RecordView::Test(with_jobs(row, ids)),
        ),
        (TaskView::AwaitTestRows, DbEventView::Tests(rows)) => list_tests_from(rows, seq![]),
        (
            TaskView::AwaitListedJobIds { rows, tests },
            DbEventView::JobIds(ids),
        ) => list_tests_from(rows, tests.push(with_jobs(rows[tests.len() as int], ids))),
        (TaskView::AwaitUser, DbEventView::User(u)) => finish(RecordView::User(u)),
        (TaskView::AwaitUsers, DbEventView::Users(us)) => finish(RecordView::Users(us)),
        _ => fail(),
    }
}

impl State {
    spec fn wf(&self) -> bool {
        match self {
            State::AddMembers { group, next } => *next <= group.members.len(),
            State::AwaitListedMembers { rows, groups } => groups.len() < rows.len(),
            State::AwaitListedJobIds { rows, tests } => tests.len() < rows.len(),
            _ => true,
        }
    }
}

impl Task {
    #[verifier::type_invariant]
    spec fn inv(self) -> bool {
        self.state.wf()
    }

    fn add_members_from(group: Group, next: usize) -> (r: (Task, Step))
        requires
            next <= group.members.len(),
        ensures
            (r.0@, r.1@) == add_members_from(group@, next as int),
    {
        if next < group.members.len() {
            let ucid = group.members[next].clone();
            let group_id = group.id;
            (
                Task { state: State::AddMembers { group, next: next + 1 } },
                Step::Query(DbAction::InsertMember { group_id, ucid }),
            )
        } else {
            (Task { state: State::Finished }, Step::Done(Ok(Record::Group(group))))
        }
    }

    fn list_groups_from(rows: Vec<GroupRow>, done: Vec<Group>) -> (r: (Task, Step))
        requires
            done.len() <= rows.len(),
        ensures
            (r.0@, r.1@) == list_groups_from(rows.deep_view(), done.deep_view()),
    {
        if done.len() < rows.len() {
            let group_id = rows[done.len()].id;
            (
                Task { state: State::AwaitListedMembers { rows, groups: done } },
                Step::Query(DbAction::SelectMembers { group_id }),
            )
        } else {
            (Task { state: State::Finished }, Step::Done(Ok(Record::Groups(done))))
        }
    }

    fn list_tests_from(rows: Vec<TestNoJobs>, done: Vec<Test>) -> (r: (Task, Step))
        requires
            done.len() <= rows.len(),
        ensures
            (r.0@, r.1@) == list_tests_from(rows.deep_view(), done.deep_view()),
    {
        if done.len() < rows.len() {
            let test_id = rows[done.len()].id;
            (
                Task { state: State::AwaitListedJobIds { rows, tests: done } },
                Step::Query(DbAction::SelectJobIds { test_id }),
            )
        } else {
            (Task { state: State::Finished }, Step::Done(Ok(Record::Tests(done))))
        }
    }

    fn fail() -> (r: (Task, Step))
        ensures
            (r.0@, r.1@) == fail(),
    {
        (Task { state: State::Finished }, Step::Done(Err(DbError)))
    }

    fn finish(record: Record) -> (r: (Task, Step))
        ensures
            (r.0@, r.1@) == finish(record@),
    {
        (Task { state: State::Finished }, Step::Done(Ok(record)))
    }

    /// Starts an operation: its task and its first statement.
    pub fn start(op: Op) -> (r: (Task, Step))
        requires
            admissible(op@),
        ensures
            (r.0@, r.1@) == start_spec(op@),
    {
        match op {
            Op::CreateGroup(g) => {
                let members = distinct_members(g.members);
                (
                    Task { state: State::AwaitGroupRow { members } },
                    Step::Query(DbAction::InsertGroup { name: g.name, git_url: g.git_url }),
                )
            },
            Op::FindGroup(id) => (
                Task { state: State::AwaitFoundGroup { id } },
                Step::Query(DbAction::SelectGroup { id }),
            ),
            Op::ListGroups => (
                Task { state: State::AwaitGroupRows },
                Step::Query(DbAction::SelectGroups),
            ),
            Op::UpdateGroup(g) => {
                let action = DbAction::UpdateGroup {
                    id: g.id,
                    name: g.name.clone(),
                    git_url: g.git_url.clone(),
                };
                let members = distinct_members(g.members);
                let group = Group { id: g.id, name: g.name, git_url: g.git_url, members };
                (Task { state: State::AwaitUpdate { group } }, Step::Query(action))
            },
            Op::DeleteGroup(id) => (
                Task { state: State::AwaitGroupDelete { id } },
                Step::Query(DbAction::DeleteGroup { id }),
            ),
            Op::CreateJob(j) => {
                let status = String::from_str("QUEUED");
                (
                    Task { state: State::AwaitJob },
                    Step::Query(
                        DbAction::InsertJob { status, group_id: j.group_id, test_id: j.test_id },
                    ),
                )
            },
            Op::FindJob(id) => (Task { state: State::AwaitJob }, Step::Query(DbAction::SelectJob { id })),
            Op::ListJobs => (Task { state: State::AwaitJobs }, Step::Query(DbAction::SelectJobs)),
            Op::DeleteJob(id) => (
                Task { state: State::AwaitExecuted { record: Record::Id(id) } },
                Step::Query(DbAction::DeleteJob { id }),
            ),
            Op::CreateTest(t) => {
                let t = normalize_timeout(t);
                (Task { state: State::AwaitNewTest }, Step::Query(DbAction::InsertTest(t)))
            },
            Op::FindTest(id) => (
                Task { state: State::AwaitFoundTest { id } },
                Step::Query(DbAction::SelectTest { id }),
            ),
            Op::ListTests => (Task { state: State::AwaitTestRows }, Step::Query(DbAction::SelectTests)),
            Op::UpdateTest(t) => {
                let record = Record::Test(t.duplicate());
                let t = normalize_timeout(t);
                (
                    Task { state: State::AwaitExecuted { record } },
                    Step::Query(DbAction::UpdateTest(t)),
                )
            },
            Op::DeleteTest(id) => (
                Task { state: State::AwaitExecuted { record: Record::Id(id) } },
                Step::Query(DbAction::DeleteTest { id }),
            ),
            Op::FindUser(ucid) => (
                Task { state: State::AwaitUser },
                Step::Query(DbAction::SelectUser { ucid }),
            ),
            Op::ListUsers => (Task { state: State::AwaitUsers }, Step::Query(DbAction::SelectUsers)),
            Op::UpdateUser(u) => (Task { state: State::AwaitUser }, Step::Query(DbAction::UpdateUser(u))),
            Op::CreateUser(u) => {
                let record = Record::User(u.duplicate());
                (
                    Task { state: State::AwaitExecuted { record } },
                    Step::Query(DbAction::InsertUser(u)),
                )
            },
        }
    }

    /// Takes the database's answer to the last statement.
    pub fn resume(self, e: DbEvent) -> (r: (Task, Step))
        ensures
            (r.0@, r.1@) == next_spec(self@, e@),
    {
        proof {
            use_type_invariant(&self);
        }
        match (self.state, e) {
            (State::AwaitGroupRow { members }, DbEvent::Group(row)) => {
                let group = Group { id: row.id, name: row.name, git_url: row.git_url, members };
                Self::add_members_from(group, 0)
            },
            (State::AddMembers { group, next }, DbEvent::Executed) => Self::add_members_from(
                group,
                next,
            ),
            (State::AwaitUpdate { group }, DbEvent::Executed) => {
                let group_id = group.id;
                (
                    Task { state: State::AwaitClear { group } },
                    Step::Query(DbAction::DeleteMembers { group_id }),
                )
            },
            (State::AwaitClear { group }, DbEvent::Executed) => Self::add_members_from(group, 0),
            (State::AwaitFoundGroup { id }, DbEvent::Group(row)) => (
                Task { state: State::AwaitFoundMembers { row } },
                Step::Query(DbAction::SelectMembers { group_id: id }),
            ),
            (State::AwaitFoundMembers { row }, DbEvent::Members(ms)) => {
                let members = distinct_members(ms);
                Self::finish(
                    Record::Group(
                        Group { id: row.id, name: row.name, git_url: row.git_url, members },
                    ),
                )
            },
            (State::AwaitGroupRows, DbEvent::Groups(rows)) => {
                let done: Vec<Group> = Vec::new();
                assert(done.deep_view() =~= seq![]);
                Self::list_groups_from(rows, done)
            },
            (State::AwaitListedMembers { rows, mut groups }, DbEvent::Members(ms)) => {
                let members = distinct_members(ms);
                let row = &rows[groups.len()];
                let group = Group {
                    id: row.id,
                    name: row.name.clone(),
                    git_url: row.git_url.clone(),
                    members,
                };
                let ghost old_groups = groups.deep_view();
                let ghost g = group@;
                groups.push(group);
                assert(groups.deep_view() =~= old_groups.push(g));
                assert(rows.deep_view()[old_groups.len() as int] == rows@[old_groups.len() as int]@);
                Self::list_groups_from(rows, groups)
            },
            (State::AwaitGroupDelete { id }, DbEvent::Executed) => (
                Task { state: State::AwaitExecuted { record: Record::Id(id) } },
                Step::Query(DbAction::DeleteMembers { group_id: id }),
            ),
            (State::AwaitExecuted { record }, DbEvent::Executed) => Self::finish(record),
            (State::AwaitJob, DbEvent::Job(j)) => Self::finish(Record::Job(j)),
            (State::AwaitJobs, DbEvent::Jobs(js)) => Self::finish(Record::Jobs(js)),
            (State::AwaitNewTest, DbEvent::Test(row)) => {
                let none: Vec<i32> = Vec::new();
                assert(none@ =~= seq![]);
                Self::finish(Record::Test(add_jobs(&row, none)))
            },
            (State::AwaitFoundTest { id }, DbEvent::Test(row)) => (
                Task { state: State::AwaitTestJobs { row } },
                Step::Query(DbAction::SelectJobIds { test_id: id }),
            ),
            (State::AwaitTestJobs { row }, DbEvent::JobIds(ids)) => Self::finish(
                Record::Test(add_jobs(&row, ids)),
            ),
            (State::AwaitTestRows, DbEvent::Tests(rows)) => {
                let done: Vec<Test> = Vec::new();
                assert(done.deep_view() =~= seq![]);
                Self::list_tests_from(rows, done)
            },
            (State::AwaitListedJobIds { rows, mut tests }, DbEvent::JobIds(ids)) => {
                let test = add_jobs(&rows[tests.len()], ids);
                let ghost old_tests = tests.deep_view();
                let ghost t = test@;
                tests.push(test);
                assert(tests.deep_view() =~= old_tests.push(t));
                assert(rows.deep_view()[old_tests.len() as int] == rows@[old_tests.len() as int]@);
                Self::list_tests_from(rows, tests)
            },
            (State::AwaitUser, DbEvent::User(u)) => Self::finish(Record::User(u)),
            (State::AwaitUsers, DbEvent::Users(us)) => Self::finish(Record::Users(us)),
            _ => Self::fail(),
        }
    }
}

} // verus!

verus! {

impl Group {
    /// Starts creating a group and its memberships; the new row's id is the
    /// group's.
    pub fn create(group: Group) -> (r: (Task, Step))
        ensures
            (r.0@, r.1@) == start_spec(OpView::CreateGroup(group@)),
    {
        Task::start(Op::CreateGroup(group))
    }

    /// Starts reading a group and its members.
    pub fn find(id: i32) -> (r: (Task, Step))
        ensures
            (r.0@, r.1@) == start_spec(OpView::FindGroup(id)),
    {
        Task::start(Op::FindGroup(id))
    }

    /// Starts reading all groups with their members.
    pub fn list() -> (r: (Task, Step))
        ensures
            (r.0@, r.1@) == start_spec(OpView::ListGroups),
    {
        Task::start(Op::ListGroups)
    }

    /// Starts rewriting a group and its memberships.
    pub fn update(group: Group) -> (r: (Task, Step))
        ensures
            (r.0@, r.1@) == start_spec(OpView::UpdateGroup(group@)),
    {
        Task::start(Op::UpdateGroup(group))
    }

    /// Starts deleting a group and its memberships.
    pub fn delete(id: i32) -> (r: (Task, Step))
        ensures
            (r.0@, r.1@) == start_spec(OpView::DeleteGroup(id)),
    {
        Task::start(Op::DeleteGroup(id))
    }
}

impl Job {
    /// Starts queueing a job for the job's group and test (its other fields
    /// are the database's to fill).
    pub fn create(job: Job) -> (r: (Task, Step))
        ensures
            (r.0@, r.1@) == start_spec(OpView::CreateJob(job@)),
    {
        Task::start(Op::CreateJob(job))
    }

    /// Starts reading a job.
    pub fn find(id: i32) -> (r: (Task, Step))
        ensures
            (r.0@, r.1@) == start_spec(OpView::FindJob(id)),
    {
        Task::start(Op::FindJob(id))
    }

    /// Starts reading all jobs.
    pub fn list() -> (r: (Task, Step))
        ensures
            (r.0@, r.1@) == start_spec(OpView::ListJobs),
    {
        Task::start(Op::ListJobs)
    }

    /// Starts deleting a job.
    pub fn delete(id: i32) -> (r: (Task, Step))
        ensures
            (r.0@, r.1@) == start_spec(OpView::DeleteJob(id)),
    {
        Task::start(Op::DeleteJob(id))
    }
}

impl Test {
    /// Starts storing a new test, with the absolute value of its timeout.
    pub fn create(test: Test) -> (r: (Task, Step))
        requires
            test.command_timeout != i32::MIN,
        ensures
            (r.0@, r.1@) == start_spec(OpView::CreateTest(test@)),
    {
        Task::start(Op::CreateTest(test))
    }

    /// Starts reading a test and the ids of its jobs.
    pub fn find(id: i32) -> (r: (Task, Step))
        ensures
            (r.0@, r.1@) == start_spec(OpView::FindTest(id)),
    {
        Task::start(Op::FindTest(id))
    }

    /// Starts reading all tests with the ids of their jobs.
    pub fn list() -> (r: (Task, Step))
        ensures
            (r.0@, r.1@) == start_spec(OpView::ListTests),
    {
        Task::start(Op::ListTests)
    }

    /// Starts deleting a test.
    pub fn delete(id: i32) -> (r: (Task, Step))
        ensures
            (r.0@, r.1@) == start_spec(OpView::DeleteTest(id)),
    {
        Task::start(Op::DeleteTest(id))
    }

    /// Starts rewriting a test, with the absolute value of its timeout; yields
    /// the test as it was given.
    pub fn update(test: Test) -> (r: (Task, Step))
        requires
            test.command_timeout != i32::MIN,
        ensures
            (r.0@, r.1@) == start_spec(OpView::UpdateTest(test@)),
    {
        Task::start(Op::UpdateTest(test))
    }
}

impl User {
    /// Starts reading a user by id.
    pub fn find(ucid: String) -> (r: (Task, Step))
        ensures
            (r.0@, r.1@) == start_spec(OpView::FindUser(ucid@)),
    {
        Task::start(Op::FindUser(ucid))
    }

    /// Starts reading all users.
    pub fn list() -> (r: (Task, Step))
        ensures
            (r.0@, r.1@) == start_spec(OpView::ListUsers),
    {
        Task::start(Op::ListUsers)
    }

    /// Starts rewriting a user's stored fields; yields the stored user.
    pub fn update(user: User) -> (r: (Task, Step))
        ensures
            (r.0@, r.1@) == start_spec(OpView::UpdateUser(user@)),
    {
        Task::start(Op::UpdateUser(user))
    }

    /// Starts storing a new user; yields that user.
    pub fn create(user: User) -> (r: (Task, Step))
        ensures
            (r.0@, r.1@) == start_spec(OpView::CreateUser(user@)),
    {
        Task::start(Op::CreateUser(user))
    }
}

} // verus!
