//! What whole runs of the operations of `store` do: which statements they
//! send, in which order, and what they yield from the database's answers.
use vstd::prelude::*;
use crate::models::{distinct, normalized, with_jobs, GroupRowView, GroupView, JobView, TestView, UserView};
use crate::store::{
    add_members_from, group_of, list_groups_from, list_tests_from, next_spec, queued, start_spec,
    with_distinct_members, DbActionView, DbEventView, OpView, RecordView, StepView, TaskView,
};

verus! {

/// The steps a task takes on a sequence of answers, and where it ends.
pub open spec fn run(t: TaskView, events: Seq<DbEventView>) -> (TaskView, Seq<StepView>)
    decreases events.len(),
{
    if events.len() == 0 {
        (t, seq![])
    } else {
        let (t2, s) = next_spec(t, events[0]);
        let (tf, rest) = run(t2, events.drop_first());
        (tf, seq![s] + rest)
    }
}

/// Every step of an operation started with `op` and answered with `events`,
/// its first statement included.
pub open spec fn trace(op: OpView, events: Seq<DbEventView>) -> Seq<StepView> {
    seq![start_spec(op).1] + run(start_spec(op).0, events).1
}

/// A group as stored: the row the database returned and the given members.
pub open spec fn stored_group(row: GroupRowView, members: Seq<Seq<char>>) -> GroupView {
    GroupView { id: row.id, name: row.name, git_url: row.git_url, members: members }
}

/// `n` answers that a statement ran.
pub open spec fn executed(n: nat) -> Seq<DbEventView> {
    Seq::new(n, |i: int| DbEventView::Executed)
}

/// One insertion of a member for each member of `g` from the `i`-th on, then
/// `g` as the result.
pub open spec fn member_inserts(g: GroupView, i: int) -> Seq<StepView> {
    Seq::new(
        (g.members.len() - i) as nat,
        |j: int| StepView::Query(DbActionView::InsertMember { group_id: g.id, ucid: g.members[i + j] }),
    ).push(StepView::Done(Some(RecordView::Group(g))))
}

/// A failed statement ends any operation, without a result; a finished
/// operation sends nothing more.
pub proof fn law_failure_ends_operation(t: TaskView, e: DbEventView)
    ensures
        next_spec(t, DbEventView::Failed) == (TaskView::Finished, StepView::Done(None)),
        next_spec(TaskView::Finished, e) == (TaskView::Finished, StepView::Done(None)),
{
}

proof fn lemma_member_inserts(g: GroupView, i: int)
    requires
        0 <= i <= g.members.len(),
    ensures
        seq![add_members_from(g, i).1] + run(
            add_members_from(g, i).0,
            executed((g.members.len() - i) as nat),
        ).1 == member_inserts(g, i),
    decreases g.members.len() - i,
{
    let n = (g.members.len() - i) as nat;
    if i == g.members.len() {
        assert(member_inserts(g, i) =~= seq![StepView::Done(Some(RecordView::Group(g)))]);
    } else {
        let t = add_members_from(g, i).0;
        assert(t == TaskView::AddMembers { group: g, next: i + 1 });
        assert(executed(n)[0] == DbEventView::Executed);
        assert(executed(n).drop_first() =~= executed((n - 1) as nat));
        lemma_member_inserts(g, i + 1);
        assert(member_inserts(g, i) =~= seq![add_members_from(g, i).1] + member_inserts(g, i + 1));
    }
}

/// Creating a group inserts its row, then each of its members once, and
/// yields the stored row with the members it was given.
pub proof fn law_create_group(g: GroupView, row: GroupRowView)
    ensures
        trace(
            OpView::CreateGroup(g),
            seq![DbEventView::Group(row)] + executed(distinct(g.members).len()),
        ) == seq![StepView::Query(DbActionView::InsertGroup { name: g.name, git_url: g.git_url })]
            + member_inserts(stored_group(row, distinct(g.members)), 0),
{
    let ms = distinct(g.members);
    let op = OpView::CreateGroup(g);
    let t0 = start_spec(op).0;
    let events = seq![DbEventView::Group(row)] + executed(ms.len());
    let g2 = group_of(row, ms);
    assert(events[0] == DbEventView::Group(row));
    assert(events.drop_first() =~= executed(ms.len()));
    assert(next_spec(t0, events[0]) == add_members_from(g2, 0));
    lemma_member_inserts(g2, 0);
}

/// Updating a group rewrites its row, deletes all its memberships, then
/// inserts each of its members once, and yields the group.
pub proof fn law_update_group(g: GroupView)
    ensures
        trace(
            OpView::UpdateGroup(g),
            seq![DbEventView::Executed, DbEventView::Executed] + executed(
                distinct(g.members).len(),
            ),
        ) == seq![
            StepView::Query(DbActionView::UpdateGroup { id: g.id, name: g.name, git_url: g.git_url }),
            StepView::Query(DbActionView::DeleteMembers { group_id: g.id }),
        ] + member_inserts(GroupView { members: distinct(g.members), ..g }, 0),
{
    let g2 = with_distinct_members(g);
    let op = OpView::UpdateGroup(g);
    let t0 = start_spec(op).0;
    let events = seq![DbEventView::Executed, DbEventView::Executed] + executed(g2.members.len());
    let t1 = TaskView::AwaitClear { group: g2 };
    assert(events[0] == DbEventView::Executed);
    assert(next_spec(t0, events[0]) == (
        t1,
        StepView::Query(DbActionView::DeleteMembers { group_id: g.id }),
    ));
    let rest = events.drop_first();
    assert(rest[0] == DbEventView::Executed);
    assert(rest.drop_first() =~= executed(g2.members.len()));
    assert(next_spec(t1, rest[0]) == add_members_from(g2, 0));
    lemma_member_inserts(g2, 0);
    let (t2, s2) = add_members_from(g2, 0);
    assert(run(t1, rest).1 == seq![s2] + run(t2, executed(g2.members.len())).1);
    assert(run(t0, events).1 == seq![
        StepView::Query(DbActionView::DeleteMembers { group_id: g.id }),
    ] + run(t1, rest).1);
    assert(run(t0, events).1 =~= seq![
        StepView::Query(DbActionView::DeleteMembers { group_id: g.id }),
    ] + member_inserts(g2, 0));
}

/// Reading a group reads its row, then its memberships, and yields the row
/// with each member once.
pub proof fn law_find_group(id: i32, row: GroupRowView, ucids: Seq<Seq<char>>)
    ensures
        trace(
            OpView::FindGroup(id),
            seq![DbEventView::Group(row), DbEventView::Members(ucids)],
        ) == seq![
            StepView::Query(DbActionView::SelectGroup { id }),
            StepView::Query(DbActionView::SelectMembers { group_id: id }),
            StepView::Done(Some(RecordView::Group(stored_group(row, distinct(ucids))))),
        ],
{
    let events = seq![DbEventView::Group(row), DbEventView::Members(ucids)];
    assert(events.drop_first() =~= seq![DbEventView::Members(ucids)]);
    assert(events.drop_first().drop_first() =~= seq![]);
    reveal_with_fuel(run, 3);
    assert(run(start_spec(OpView::FindGroup(id)).0, events).1 =~= seq![
        StepView::Query(DbActionView::SelectMembers { group_id: id }),
        StepView::Done(Some(RecordView::Group(group_of(row, distinct(ucids))))),
    ]);
}

/// Deleting a group deletes its row, then its memberships, and yields its id.
pub proof fn law_delete_group(id: i32)
    ensures
        trace(OpView::DeleteGroup(id), executed(2)) == seq![
            StepView::Query(DbActionView::DeleteGroup { id }),
            StepView::Query(DbActionView::DeleteMembers { group_id: id }),
            StepView::Done(Some(RecordView::Id(id))),
        ],
{
    let events = executed(2);
    assert(events[0] == DbEventView::Executed);
    assert(events.drop_first() =~= executed(1));
    assert(executed(1)[0] == DbEventView::Executed);
    assert(executed(1).drop_first() =~= seq![]);
    reveal_with_fuel(run, 3);
    assert(run(start_spec(OpView::DeleteGroup(id)).0, events).1 =~= seq![
        StepView::Query(DbActionView::DeleteMembers { group_id: id }),
        StepView::Done(Some(RecordView::Id(id))),
    ]);
}

/// The groups the rows and their membership lists make, in the order of the
/// rows.
pub open spec fn groups_of(rows: Seq<GroupRowView>, ucids: Seq<Seq<Seq<char>>>) -> Seq<GroupView> {
    Seq::new(rows.len(), |i: int| stored_group(rows[i], distinct(ucids[i])))
}

/// The answers to the membership reads of a listing.
pub open spec fn member_answers(ucids: Seq<Seq<Seq<char>>>) -> Seq<DbEventView> {
    Seq::new(ucids.len(), |i: int| DbEventView::Members(ucids[i]))
}

/// The membership reads of a listing, from the `i`-th row on, then the
/// groups.
pub open spec fn member_reads(
    rows: Seq<GroupRowView>,
    ucids: Seq<Seq<Seq<char>>>,
    i: int,
) -> Seq<StepView> {
    Seq::new(
        (rows.len() - i) as nat,
        |j: int| StepView::Query(DbActionView::SelectMembers { group_id: rows[i + j].id }),
    ).push(StepView::Done(Some(RecordView::Groups(groups_of(rows, ucids)))))
}

proof fn lemma_member_reads(rows: Seq<GroupRowView>, ucids: Seq<Seq<Seq<char>>>, i: int)
    requires
        rows.len() == ucids.len(),
        0 <= i <= rows.len(),
    ensures
        ({
            let done = groups_of(rows, ucids).take(i);
            seq![list_groups_from(rows, done).1] + run(
                list_groups_from(rows, done).0,
                member_answers(ucids).skip(i),
            ).1 == member_reads(rows, ucids, i)
        }),
    decreases rows.len() - i,
{
    let done = groups_of(rows, ucids).take(i);
    if i == rows.len() {
        assert(done =~= groups_of(rows, ucids));
        assert(member_answers(ucids).skip(i) =~= seq![]);
        assert(member_reads(rows, ucids, i) =~= seq![
            StepView::Done(Some(RecordView::Groups(groups_of(rows, ucids)))),
        ]);
    } else {
        let t = list_groups_from(rows, done).0;
        let answers = member_answers(ucids).skip(i);
        assert(answers[0] == DbEventView::Members(ucids[i]));
        assert(answers.drop_first() =~= member_answers(ucids).skip(i + 1));
        assert(done.push(group_of(rows[done.len() as int], distinct(ucids[i])))
            =~= groups_of(rows, ucids).take(i + 1));
        lemma_member_reads(rows, ucids, i + 1);
        assert(member_reads(rows, ucids, i) =~= seq![list_groups_from(rows, done).1]
            + member_reads(rows, ucids, i + 1));
    }
}

/// Listing the groups reads all rows, then the memberships of each row in
/// turn, and yields one group per row, each member once.
pub proof fn law_list_groups(rows: Seq<GroupRowView>, ucids: Seq<Seq<Seq<char>>>)
    requires
        rows.len() == ucids.len(),
    ensures
        trace(
            OpView::ListGroups,
            seq![DbEventView::Groups(rows)] + member_answers(ucids),
        ) == seq![StepView::Query(DbActionView::SelectGroups)] + member_reads(rows, ucids, 0),
{
    let events = seq![DbEventView::Groups(rows)] + member_answers(ucids);
    assert(events[0] == DbEventView::Groups(rows));
    assert(events.drop_first() =~= member_answers(ucids).skip(0));
    assert(groups_of(rows, ucids).take(0) =~= seq![]);
    lemma_member_reads(rows, ucids, 0);
}

/// The tests the rows and their job id lists make, in the order of the rows.
pub open spec fn tests_of(rows: Seq<TestView>, ids: Seq<Seq<i32>>) -> Seq<TestView> {
    Seq::new(rows.len(), |i: int| with_jobs(rows[i], ids[i]))
}

/// The answers to the job id reads of a listing.
pub open spec fn job_id_answers(ids: Seq<Seq<i32>>) -> Seq<DbEventView> {
    Seq::new(ids.len(), |i: int| DbEventView::JobIds(ids[i]))
}

/// The job id reads of a listing, from the `i`-th row on, then the tests.
pub open spec fn job_id_reads(rows: Seq<TestView>, ids: Seq<Seq<i32>>, i: int) -> Seq<StepView> {
    Seq::new(
        (rows.len() - i) as nat,
        |j: int| StepView::Query(DbActionView::SelectJobIds { test_id: rows[i + j].id }),
    ).push(StepView::Done(Some(RecordView::Tests(tests_of(rows, ids)))))
}

proof fn lemma_job_id_reads(rows: Seq<TestView>, ids: Seq<Seq<i32>>, i: int)
    requires
        rows.len() == ids.len(),
        0 <= i <= rows.len(),
    ensures
        ({
            let done = tests_of(rows, ids).take(i);
            seq![list_tests_from(rows, done).1] + run(
                list_tests_from(rows, done).0,
                job_id_answers(ids).skip(i),
            ).1 == job_id_reads(rows, ids, i)
        }),
    decreases rows.len() - i,
{
    let done = tests_of(rows, ids).take(i);
    if i == rows.len() {
        assert(done =~= tests_of(rows, ids));
        assert(job_id_answers(ids).skip(i) =~= seq![]);
        assert(job_id_reads(rows, ids, i) =~= seq![
            StepView::Done(Some(RecordView::Tests(tests_of(rows, ids)))),
        ]);
    } else {
        let answers = job_id_answers(ids).skip(i);
        assert(answers[0] == DbEventView::JobIds(ids[i]));
        assert(answers.drop_first() =~= job_id_answers(ids).skip(i + 1));
        assert(done.push(with_jobs(rows[done.len() as int], ids[i])) =~= tests_of(rows, ids).take(
            i + 1,
        ));
        lemma_job_id_reads(rows, ids, i + 1);
        assert(job_id_reads(rows, ids, i) =~= seq![list_tests_from(rows, done).1] + job_id_reads(
            rows,
            ids,
            i + 1,
        ));
    }
}

/// Listing the tests reads all rows, then the job ids of each row in turn,
/// and yields one test per row with its jobs.
pub proof fn law_list_tests(rows: Seq<TestView>, ids: Seq<Seq<i32>>)
    requires
        rows.len() == ids.len(),
    ensures
        trace(OpView::ListTests, seq![DbEventView::Tests(rows)] + job_id_answers(ids)) == seq![
            StepView::Query(DbActionView::SelectTests),
        ] + job_id_reads(rows, ids, 0),
{
    let events = seq![DbEventView::Tests(rows)] + job_id_answers(ids);
    assert(events[0] == DbEventView::Tests(rows));
    assert(events.drop_first() =~= job_id_answers(ids).skip(0));
    assert(tests_of(rows, ids).take(0) =~= seq![]);
    lemma_job_id_reads(rows, ids, 0);
}

/// Reading a test reads its row, then the ids of the jobs that use it.
pub proof fn law_find_test(id: i32, row: TestView, ids: Seq<i32>)
    ensures
        trace(OpView::FindTest(id), seq![DbEventView::Test(row), DbEventView::JobIds(ids)])
            == seq![
            StepView::Query(DbActionView::SelectTest { id }),
            StepView::Query(DbActionView::SelectJobIds { test_id: id }),
            StepView::Done(Some(RecordView::Test(with_jobs(row, ids)))),
        ],
{
    let events = seq![DbEventView::Test(row), DbEventView::JobIds(ids)];
    assert(events.drop_first() =~= seq![DbEventView::JobIds(ids)]);
    assert(events.drop_first().drop_first() =~= seq![]);
    reveal_with_fuel(run, 3);
    assert(run(start_spec(OpView::FindTest(id)).0, events).1 =~= seq![
        StepView::Query(DbActionView::SelectJobIds { test_id: id }),
        StepView::Done(Some(RecordView::Test(with_jobs(row, ids)))),
    ]);
}

/// A test is written with a non-negative timeout, its absolute value; a new
/// test has no jobs, and an updated test is yielded as it was given.
pub proof fn law_tests_written_with_absolute_timeout(t: TestView, row: TestView)
    requires
        t.command_timeout != i32::MIN,
    ensures
        normalized(t).command_timeout >= 0,
        normalized(t).command_timeout == t.command_timeout || normalized(t).command_timeout
            == -t.command_timeout,
        normalized(normalized(t)) == normalized(t),
        trace(OpView::CreateTest(t), seq![DbEventView::Test(row)]) == seq![
            StepView::Query(DbActionView::InsertTest(normalized(t))),
            StepView::Done(Some(RecordView::Test(with_jobs(row, seq![])))),
        ],
        trace(OpView::UpdateTest(t), seq![DbEventView::Executed]) == seq![
            StepView::Query(DbActionView::UpdateTest(normalized(t))),
            StepView::Done(Some(RecordView::Test(t))),
        ],
{
    reveal_with_fuel(run, 2);
    assert(seq![DbEventView::Test(row)].drop_first() =~= seq![]);
    assert(seq![DbEventView::Executed].drop_first() =~= seq![]);
    assert(run(start_spec(OpView::CreateTest(t)).0, seq![DbEventView::Test(row)]).1 =~= seq![
        StepView::Done(Some(RecordView::Test(with_jobs(row, seq![])))),
    ]);
    assert(run(start_spec(OpView::UpdateTest(t)).0, seq![DbEventView::Executed]).1 =~= seq![
        StepView::Done(Some(RecordView::Test(t))),
    ]);
}

/// A new job is queued for the given group and test, whatever else the job
/// says; the job the database stored is yielded.
pub proof fn law_new_job_queued(job: JobView, stored: JobView)
    ensures
        queued() == "QUEUED"@,
        trace(OpView::CreateJob(job), seq![DbEventView::Job(stored)]) == seq![
            StepView::Query(
                DbActionView::InsertJob { status: queued(), group_id: job.group_id, test_id: job.test_id },
            ),
            StepView::Done(Some(RecordView::Job(stored))),
        ],
{
    reveal_with_fuel(run, 2);
    assert(seq![DbEventView::Job(stored)].drop_first() =~= seq![]);
    assert(run(start_spec(OpView::CreateJob(job)).0, seq![DbEventView::Job(stored)]).1 =~= seq![
        StepView::Done(Some(RecordView::Job(stored))),
    ]);
}

/// Deleting a job or a test deletes its row and yields its id.
pub proof fn law_delete_yields_id(id: i32)
    ensures
        trace(OpView::DeleteJob(id), executed(1)) == seq![
            StepView::Query(DbActionView::DeleteJob { id }),
            StepView::Done(Some(RecordView::Id(id))),
        ],
        trace(OpView::DeleteTest(id), executed(1)) == seq![
            StepView::Query(DbActionView::DeleteTest { id }),
            StepView::Done(Some(RecordView::Id(id))),
        ],
{
    reveal_with_fuel(run, 2);
    assert(executed(1)[0] == DbEventView::Executed);
    assert(executed(1).drop_first() =~= seq![]);
    assert(run(start_spec(OpView::DeleteJob(id)).0, executed(1)).1 =~= seq![
        StepView::Done(Some(RecordView::Id(id))),
    ]);
    assert(run(start_spec(OpView::DeleteTest(id)).0, executed(1)).1 =~= seq![
        StepView::Done(Some(RecordView::Id(id))),
    ]);
}

/// A group read back has the members it was written with, each once,
/// whatever order and repetitions the membership table returns them in.
pub proof fn law_members_read_back(written: Seq<Seq<char>>, stored: Seq<Seq<char>>)
    requires
        stored.to_set() == distinct(written).to_set(),
    ensures
        distinct(stored).to_set() == written.to_set(),
        distinct(stored).no_duplicates(),
        distinct(stored).len() == distinct(written).len(),
{
    crate::models::law_distinct_members(written);
    crate::models::law_distinct_members(stored);
    distinct(stored).unique_seq_to_set();
    distinct(written).unique_seq_to_set();
}

/// Reading one job selects that job by its id and yields the job the
/// database returned; listing jobs selects them all and yields all of them.
pub proof fn law_job_reads(id: i32, job: JobView, jobs: Seq<JobView>)
    ensures
        trace(OpView::FindJob(id), seq![DbEventView::Job(job)]) == seq![
            StepView::Query(DbActionView::SelectJob { id }),
            StepView::Done(Some(RecordView::Job(job))),
        ],
        trace(OpView::ListJobs, seq![DbEventView::Jobs(jobs)]) == seq![
            StepView::Query(DbActionView::SelectJobs),
            StepView::Done(Some(RecordView::Jobs(jobs))),
        ],
{
    reveal_with_fuel(run, 2);
    assert(seq![DbEventView::Job(job)].drop_first() =~= seq![]);
    assert(seq![DbEventView::Jobs(jobs)].drop_first() =~= seq![]);
    assert(run(start_spec(OpView::FindJob(id)).0, seq![DbEventView::Job(job)]).1 =~= seq![
        StepView::Done(Some(RecordView::Job(job))),
    ]);
    assert(run(start_spec(OpView::ListJobs).0, seq![DbEventView::Jobs(jobs)]).1 =~= seq![
        StepView::Done(Some(RecordView::Jobs(jobs))),
    ]);
}

/// Users are read by their id, all together, rewritten (yielding the row the
/// database returns) or inserted (yielding the user inserted).
pub proof fn law_user_operations(
    ucid: Seq<char>,
    user: UserView,
    returned: UserView,
    users: Seq<UserView>,
)
    ensures
        trace(OpView::FindUser(ucid), seq![DbEventView::User(returned)]) == seq![
            StepView::Query(DbActionView::SelectUser { ucid }),
            StepView::Done(Some(RecordView::User(returned))),
        ],
        trace(OpView::ListUsers, seq![DbEventView::Users(users)]) == seq![
            StepView::Query(DbActionView::SelectUsers),
            StepView::Done(Some(RecordView::Users(users))),
        ],
        trace(OpView::UpdateUser(user), seq![DbEventView::User(returned)]) == seq![
            StepView::Query(DbActionView::UpdateUser(user)),
            StepView::Done(Some(RecordView::User(returned))),
        ],
        trace(OpView::CreateUser(user), seq![DbEventView::Executed]) == seq![
            StepView::Query(DbActionView::InsertUser(user)),
            StepView::Done(Some(RecordView::User(user))),
        ],
{
    reveal_with_fuel(run, 2);
    assert(seq![DbEventView::User(returned)].drop_first() =~= seq![]);
    assert(seq![DbEventView::Users(users)].drop_first() =~= seq![]);
    assert(seq![DbEventView::Executed].drop_first() =~= seq![]);
    assert(run(start_spec(OpView::FindUser(ucid)).0, seq![DbEventView::User(returned)]).1 =~= seq![
        StepView::Done(Some(RecordView::User(returned))),
    ]);
    assert(run(start_spec(OpView::ListUsers).0, seq![DbEventView::Users(users)]).1 =~= seq![
        StepView::Done(Some(RecordView::Users(users))),
    ]);
    assert(run(start_spec(OpView::UpdateUser(user)).0, seq![DbEventView::User(returned)]).1 =~= seq![
        StepView::Done(Some(RecordView::User(returned))),
    ]);
    assert(run(start_spec(OpView::CreateUser(user)).0, seq![DbEventView::Executed]).1 =~= seq![
        StepView::Done(Some(RecordView::User(user))),
    ]);
}

/// The answer each operation's first statement is waited for with.
pub open spec fn first_answer_fits(op: OpView, e: DbEventView) -> bool {
    match op {
        OpView::CreateGroup(_) | OpView::FindGroup(_) => e is Group,
        OpView::ListGroups => e is Groups,
        OpView::CreateJob(_) | OpView::FindJob(_) => e is Job,
        OpView::ListJobs => e is Jobs,
        OpView::CreateTest(_) | OpView::FindTest(_) => e is Test,
        OpView::ListTests => e is Tests,
        OpView::FindUser(_) | OpView::UpdateUser(_) => e is User,
        OpView::ListUsers => e is Users,
        _ => e is Executed,
    }
}

/// An operation whose first statement is answered with anything else than
/// what it asked for (a failure included) ends there, without a result.
pub proof fn law_wrong_first_answer_fails(op: OpView, e: DbEventView)
    requires
        !first_answer_fits(op, e),
    ensures
        trace(op, seq![e]).len() == 2,
        trace(op, seq![e])[1] == StepView::Done(None),
{
    reveal_with_fuel(run, 2);
    assert(seq![e].drop_first() =~= seq![]);
    assert(next_spec(start_spec(op).0, e) == (TaskView::Finished, StepView::Done(None)));
    assert(run(start_spec(op).0, seq![e]).1 =~= seq![StepView::Done(None)]);
}

} // verus!
