//! The records the server keeps: users, groups, jobs and tests, with their
//! mathematical views and the pure computations done on them.
use vstd::prelude::*;

verus! {

/// A person known to the server, keyed by `ucid` (the part of the Google
/// e-mail address before the `@`, in lower case).
#[derive(Debug, Clone, PartialEq, Eq)]
pub struct User {
    pub ucid: String,
    pub instructor: bool,
    pub google_id: String,
    pub google_email: String,
    pub google_verified_email: bool,
    pub google_name: String,
    pub google_given_name: String,
    pub google_family_name: String,
    pub google_picture: String,
    pub google_locale: String,
    pub google_hd: String,
}

pub struct UserView {
    pub ucid: Seq<char>,
    pub instructor: bool,
    pub google_id: Seq<char>,
    pub google_email: Seq<char>,
    pub google_verified_email: bool,
    pub google_name: Seq<char>,
    pub google_given_name: Seq<char>,
    pub google_family_name: Seq<char>,
    pub google_picture: Seq<char>,
    pub google_locale: Seq<char>,
    pub google_hd: Seq<char>,
}

impl View for User {
    type V = UserView;

    open spec fn view(&self) -> UserView {
        UserView {
            ucid: self.ucid@,
            instructor: self.instructor,
            google_id: self.google_id@,
            google_email: self.google_email@,
            google_verified_email: self.google_verified_email,
            google_name: self.google_name@,
            google_given_name: self.google_given_name@,
            google_family_name: self.google_family_name@,
            google_picture: self.google_picture@,
            google_locale: self.google_locale@,
            google_hd: self.google_hd@,
        }
    }
}

impl DeepView for User {
    type V = UserView;

    open spec fn deep_view(&self) -> UserView {
        self@
    }
}

impl User {
    /// A field-by-field copy of the user.
    pub fn duplicate(&self) -> (r: User)
        ensures
            r@ == self@,
    {
        User {
            ucid: self.ucid.clone(),
            instructor: self.instructor,
            google_id: self.google_id.clone(),
            google_email: self.google_email.clone(),
            google_verified_email: self.google_verified_email,
            google_name: self.google_name.clone(),
            google_given_name: self.google_given_name.clone(),
            google_family_name: self.google_family_name.clone(),
            google_picture: self.google_picture.clone(),
            google_locale: self.google_locale.clone(),
            google_hd: self.google_hd.clone(),
        }
    }
}

/// A student group: its row in the `groups` table and the set of ucids that
/// belong to it.
#[derive(Debug, Clone, PartialEq, Eq)]
pub struct Group {
    pub id: i32,
    pub name: String,
    pub git_url: String,
    pub members: Vec<String>,
}

pub struct GroupView {
    pub id: i32,
    pub name: Seq<char>,
    pub git_url: Seq<char>,
    pub members: Seq<Seq<char>>,
}

impl View for Group {
    type V = GroupView;

    open spec fn view(&self) -> GroupView {
        GroupView {
            id: self.id,
            name: self.name@,
            git_url: self.git_url@,
            members: self.members.deep_view(),
        }
    }
}

impl DeepView for Group {
    type V = GroupView;

    open spec fn deep_view(&self) -> GroupView {
        self@
    }
}

/// A row of the `groups` table, without its members.
#[derive(Debug, Clone, PartialEq, Eq)]
pub struct GroupRow {
    pub id: i32,
    pub name: String,
    pub git_url: String,
}

pub struct GroupRowView {
    pub id: i32,
    pub name: Seq<char>,
    pub git_url: Seq<char>,
}

impl View for GroupRow {
    type V = GroupRowView;

    open spec fn view(&self) -> GroupRowView {
        GroupRowView { id: self.id, name: self.name@, git_url: self.git_url@ }
    }
}

impl DeepView for GroupRow {
    type V = GroupRowView;

    open spec fn deep_view(&self) -> GroupRowView {
        self@
    }
}

/// A grading job. Time stamps are microseconds since the Unix epoch (UTC).
#[derive(Debug, Clone, PartialEq, Eq)]
pub struct Job {
    pub id: i32,
    pub created_at: i64,
    pub started_at: Option<i64>,
    pub completed_at: Option<i64>,
    pub status: String,
    pub group_id: i32,
    pub test_id: i32,
    pub output: String,
}

pub struct JobView {
    pub id: i32,
    pub created_at: i64,
    pub started_at: Option<i64>,
    pub completed_at: Option<i64>,
    pub status: Seq<char>,
    pub group_id: i32,
    pub test_id: i32,
    pub output: Seq<char>,
}

impl View for Job {
    type V = JobView;

    open spec fn view(&self) -> JobView {
        JobView {
            id: self.id,
            created_at: self.created_at,
            started_at: self.started_at,
            completed_at: self.completed_at,
            status: self.status@,
            group_id: self.group_id,
            test_id: self.test_id,
            output: self.output@,
        }
    }
}

impl DeepView for Job {
    type V = JobView;

    open spec fn deep_view(&self) -> JobView {
        self@
    }
}

/// A row of the `tests` table, without the ids of the jobs that use it.
#[derive(Debug, Clone, PartialEq, Eq)]
pub struct TestNoJobs {
    pub id: i32,
    pub name: String,
    pub description: String,
    pub memsnapshot: Option<String>,
    pub tests_image: Option<String>,
    pub base_image: String,
    pub command: String,
    pub command_timeout: i32,
    pub prompt: String,
}

/// A test that jobs run, with the ids of the jobs that use it.
#[derive(Debug, Clone, PartialEq, Eq)]
pub struct Test {
    pub id: i32,
    pub name: String,
    pub description: String,
    pub memsnapshot: Option<String>,
    pub tests_image: Option<String>,
    pub base_image: String,
    pub command: String,
    pub command_timeout: i32,
    pub prompt: String,
    pub jobs: Vec<i32>,
}

pub struct TestView {
    pub id: i32,
    pub name: Seq<char>,
    pub description: Seq<char>,
    pub memsnapshot: Option<Seq<char>>,
    pub tests_image: Option<Seq<char>>,
    pub base_image: Seq<char>,
    pub command: Seq<char>,
    pub command_timeout: i32,
    pub prompt: Seq<char>,
    pub jobs: Seq<i32>,
}

impl View for TestNoJobs {
    type V = TestView;

    /// The view of a row is that of a test with no jobs.
    open spec fn view(&self) -> TestView {
        TestView {
            id: self.id,
            name: self.name@,
            description: self.description@,
            memsnapshot: self.memsnapshot.deep_view(),
            tests_image: self.tests_image.deep_view(),
            base_image: self.base_image@,
            command: self.command@,
            command_timeout: self.command_timeout,
            prompt: self.prompt@,
            jobs: Seq::empty(),
        }
    }
}

impl DeepView for TestNoJobs {
    type V = TestView;

    open spec fn deep_view(&self) -> TestView {
        self@
    }
}

impl View for Test {
    type V = TestView;

    open spec fn view(&self) -> TestView {
        TestView {
            id: self.id,
            name: self.name@,
            description: self.description@,
            memsnapshot: self.memsnapshot.deep_view(),
            tests_image: self.tests_image.deep_view(),
            base_image: self.base_image@,
            command: self.command@,
            command_timeout: self.command_timeout,
            prompt: self.prompt@,
            jobs: self.jobs@,
        }
    }
}

impl DeepView for Test {
    type V = TestView;

    open spec fn deep_view(&self) -> TestView {
        self@
    }
}

/// The query string Google sends back to `/auth`.
#[derive(Debug, Clone, PartialEq, Eq)]
pub struct AuthRequest {
    pub code: String,
    pub state: String,
    pub scope: String,
}

/// The profile Google's userinfo endpoint returns.
#[derive(Debug, Clone, PartialEq, Eq)]
pub struct GoogleUserProfile {
    pub id: String,
    pub email: String,
    pub verified_email: bool,
    pub name: String,
    pub given_name: String,
    pub family_name: String,
    pub picture: String,
    pub locale: String,
    pub hd: String,
}

fn copy_opt(o: &Option<String>) -> (r: Option<String>)
    ensures
        r.deep_view() == o.deep_view(),
{
    match o {
        Some(s) => Some(s.clone()),
        None => None,
    }
}

/// The test a row describes, with the given job ids.
pub open spec fn with_jobs(row: TestView, jobs: Seq<i32>) -> TestView {
    TestView { jobs: jobs, ..row }
}

/// Builds a `Test` from a row of the `tests` table and the ids of its jobs.
pub fn add_jobs(test: &TestNoJobs, jobs: Vec<i32>) -> (r: Test)
    ensures
        r@ == with_jobs(test@, jobs@),
{
    Test {
        id: test.id,
        name: test.name.clone(),
        description: test.description.clone(),
        memsnapshot: copy_opt(&test.memsnapshot),
        tests_image: copy_opt(&test.tests_image),
        base_image: test.base_image.clone(),
        command: test.command.clone(),
        command_timeout: test.command_timeout,
        prompt: test.prompt.clone(),
        jobs: jobs,
    }
}

impl Test {
    /// A field-by-field copy of the test.
    pub fn duplicate(&self) -> (r: Test)
        ensures
            r@ == self@,
    {
        let mut jobs: Vec<i32> = Vec::new();
        let n = self.jobs.len();
        for i in 0..n
            invariant
                n == self.jobs@.len(),
                jobs@ == self.jobs@.take(i as int),
        {
            jobs.push(self.jobs[i]);
            assert(self.jobs@.take(i + 1) == self.jobs@.take(i as int).push(self.jobs@[i as int]));
        }
        assert(self.jobs@.take(n as int) == self.jobs@);
        Test {
            id: self.id,
            name: self.name.clone(),
            description: self.description.clone(),
            memsnapshot: copy_opt(&self.memsnapshot),
            tests_image: copy_opt(&self.tests_image),
            base_image: self.base_image.clone(),
            command: self.command.clone(),
            command_timeout: self.command_timeout,
            prompt: self.prompt.clone(),
            jobs: jobs,
        }
    }
}

/// The absolute value of a command timeout, as the server stores it.
pub open spec fn abs(t: int) -> int {
    if t < 0 { -t } else { t }
}

/// A test with its command timeout replaced by its absolute value.
pub open spec fn normalized(t: TestView) -> TestView {
    TestView { command_timeout: abs(t.command_timeout as int) as i32, ..t }
}

/// Makes a test's command timeout non-negative, as it is before the test is
/// written to the database (`i32::abs` overflows on `i32::MIN`).
pub fn normalize_timeout(test: Test) -> (r: Test)
    requires
        test.command_timeout != i32::MIN,
    ensures
        r@ == normalized(test@),
        r.command_timeout >= 0,
{
    let t = test.command_timeout;
    let a: i32 = if t < 0 { -t } else { t };
    Test { command_timeout: a, ..test }
}

/// `s` with every repetition of an element dropped, first occurrences kept
/// in their order.
pub open spec fn distinct(s: Seq<Seq<char>>) -> Seq<Seq<char>>
    decreases s.len(),
{
    if s.len() == 0 {
        s
    } else {
        let rest = distinct(s.drop_last());
        if rest.contains(s.last()) { rest } else { rest.push(s.last()) }
    }
}

/// The members of a group are a set: `distinct` keeps exactly the elements
/// of its argument, each once, and never more of them.
pub proof fn law_distinct_members(s: Seq<Seq<char>>)
    ensures
        distinct(s).no_duplicates(),
        distinct(s).to_set() == s.to_set(),
        forall|x: Seq<char>| #[trigger] distinct(s).contains(x) <==> s.contains(x),
        distinct(s).len() <= s.len(),
    decreases s.len(),
{
    if s.len() > 0 {
        let init = s.drop_last();
        let a = s.last();
        law_distinct_members(init);
        let rest = distinct(init);
        assert(s == init.push(a));
        assert forall|x: Seq<char>| s.contains(x) <==> (init.contains(x) || x == a) by {
            if s.contains(x) && x != a {
                let k = choose|k: int| 0 <= k < s.len() && s[k] == x;
                assert(init[k] == x);
            }
            if init.contains(x) {
                let k = choose|k: int| 0 <= k < init.len() && init[k] == x;
                assert(s[k] == x);
            }
            if x == a {
                assert(s[s.len() - 1] == x);
            }
        }
        if rest.contains(a) {
            assert(distinct(s) == rest);
        } else {
            assert(distinct(s) == rest.push(a));
            assert forall|x: Seq<char>| rest.push(a).contains(x) <==> (rest.contains(x) || x == a) by {
                if rest.push(a).contains(x) && x != a {
                    let k = choose|k: int| 0 <= k < rest.push(a).len() && rest.push(a)[k] == x;
                    assert(rest[k] == x);
                }
                if rest.contains(x) {
                    let k = choose|k: int| 0 <= k < rest.len() && rest[k] == x;
                    assert(rest.push(a)[k] == x);
                }
                if x == a {
                    assert(rest.push(a)[rest.len() as int] == x);
                }
            }
            assert forall|i: int, j: int|
                0 <= i < rest.push(a).len() && 0 <= j < rest.push(a).len() && i != j
                implies rest.push(a)[i] != rest.push(a)[j] by {
                if i < rest.len() && j < rest.len() {
                    assert(rest[i] != rest[j]);
                } else if i < rest.len() {
                    assert(rest.contains(rest[i]));
                } else if j < rest.len() {
                    assert(rest.contains(rest[j]));
                }
            }
        }
        assert forall|x: Seq<char>| #[trigger] distinct(s).contains(x) <==> s.contains(x) by {
            assert(distinct(init).contains(x) <==> init.contains(x));
            assert(s.contains(x) <==> (init.contains(x) || x == a));
        }
        assert(distinct(s).to_set() =~= s.to_set());
    } else {
        assert(distinct(s).to_set() =~= s.to_set());
    }
}

/// The members of a group, each once, in the order of their first
/// occurrence.
pub fn distinct_members(ucids: Vec<String>) -> (r: Vec<String>)
    ensures
        r.deep_view() == distinct(ucids.deep_view()),
{
    let mut r: Vec<String> = Vec::new();
    let n = ucids.len();
    for i in 0..n
        invariant
            n == ucids.deep_view().len(),
            r.deep_view() == distinct(ucids.deep_view().take(i as int)),
    {
        let u = &ucids[i];
        let ghost prefix = ucids.deep_view().take(i as int);
        let ghost next = ucids.deep_view().take(i + 1);
        assert(next.drop_last() == prefix);
        assert(next.last() == u@);
        let mut seen = false;
        let m = r.len();
        for j in 0..m
            invariant
                m == r.deep_view().len(),
                seen <==> exists|k: int| 0 <= k < j && r.deep_view()[k] == u@,
        {
            assert(r.deep_view()[j as int] == r[j as int]@);
            if r[j] == *u {
                seen = true;
            }
            assert(seen <==> exists|k: int| 0 <= k < j + 1 && r.deep_view()[k] == u@);
        }
        proof {
            if r.deep_view().contains(u@) {
                let k = choose|k: int| 0 <= k < m && r.deep_view()[k] == u@;
                assert(seen);
            }
        }
        if !seen {
            let c = u.clone();
            r.push(c);
            assert(r.deep_view() =~= distinct(prefix).push(u@));
        }
    }
    assert(ucids.deep_view().take(n as int) == ucids.deep_view());
    r
}

/// A test built from a row has every field of the row and the given job ids.
pub proof fn law_with_jobs(row: TestView, jobs: Seq<i32>)
    ensures
        with_jobs(row, jobs) == (TestView {
            id: row.id,
            name: row.name,
            description: row.description,
            memsnapshot: row.memsnapshot,
            tests_image: row.tests_image,
            base_image: row.base_image,
            command: row.command,
            command_timeout: row.command_timeout,
            prompt: row.prompt,
            jobs: jobs,
        }),
{
}

/// Normalizing a test changes only its timeout, to the timeout's absolute
/// value; a normalized test is left as it is.
pub proof fn law_normalized(t: TestView)
    requires
        t.command_timeout != i32::MIN,
    ensures
        normalized(t) == (TestView { command_timeout: normalized(t).command_timeout, ..t }),
        t.command_timeout >= 0 ==> normalized(t).command_timeout == t.command_timeout,
        t.command_timeout < 0 ==> normalized(t).command_timeout == -t.command_timeout,
        normalized(normalized(t)) == normalized(t),
{
}

} // verus!
