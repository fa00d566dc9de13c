//! The HTTP routes of the server: who may call each, which operation it
//! starts, and how the operation's outcome is answered.
use vstd::prelude::*;
use crate::models::{Group, GroupView, Job, JobView, Test, TestView, User, UserView};
use crate::store::{admissible, DbError, Op, OpView, Record, RecordView};
use crate::text::{lowercase, to_lowercase};

verus! {

/// The texts the server answers with when it refuses or fails a request.
#[derive(Debug, Clone, Copy, PartialEq, Eq, Structural)]
pub enum Message {
    MustBeSignedIn,
    MustBeInstructor,
    NoPkceVerifier,
    NoCsrfState,
    StateMismatch,
    NoToken,
    NoUserInfo,
    BadUserInfo,
    UpdateUserFailed,
    CreateUserFailed,
    TestUserMissing,
    NoSessionUser,
    IdMismatch,
    CreateGroupFailed,
    ListGroupsFailed,
    UpdateGroupFailed,
    GetGroupFailed,
    DeleteGroupFailed,
    CreateJobFailed,
    GetJobFailed,
    ListJobsFailed,
    DeleteJobFailed,
    CreateTestFailed,
    GetTestFailed,
    ListTestsFailed,
    DeleteTestFailed,
    UpdateTestFailed,
    UserNotFound,
    ListUsersFailed,
}

pub open spec fn message_text(m: Message) -> Seq<char> {
    match m {
        Message::MustBeSignedIn => "Must be signed in"@,
        Message::MustBeInstructor => "Must be an instructor"@,
        Message::NoPkceVerifier => "Couldn't get pkce_code_verifier from session"@,
        Message::NoCsrfState => "Couldn't get csrf_state from session"@,
        Message::StateMismatch => "state parameter and csrf_state do not match"@,
        Message::NoToken => "Unable to obtain token"@,
        Message::NoUserInfo => "Unable to retrieve userinfo from Google API"@,
        Message::BadUserInfo => "Unable to deserialize userinfo from Google API"@,
        Message::UpdateUserFailed => "Unable to update user"@,
        Message::CreateUserFailed => "Unable to create user"@,
        Message::TestUserMissing => "Could not find test_instructor in DB"@,
        Message::NoSessionUser => "No user in session"@,
        Message::IdMismatch => "Error id in path and in json data must match"@,
        Message::CreateGroupFailed => "Error trying to create group"@,
        Message::ListGroupsFailed => "Error trying to list groups"@,
        Message::UpdateGroupFailed => "Error trying to update group"@,
        Message::GetGroupFailed => "Error trying to get group"@,
        Message::DeleteGroupFailed => "Error trying to delete group"@,
        Message::CreateJobFailed => "Error trying to create job"@,
        Message::GetJobFailed => "Error trying to get job"@,
        Message::ListJobsFailed => "Error trying to list jobs"@,
        Message::DeleteJobFailed => "Error trying to delete job"@,
        Message::CreateTestFailed => "Error trying to create test"@,
        Message::GetTestFailed => "Error trying to get test"@,
        Message::ListTestsFailed => "Error trying to list tests"@,
        Message::DeleteTestFailed => "Error trying to delete test"@,
        Message::UpdateTestFailed => "Error trying to update test"@,
        Message::UserNotFound => "User not found"@,
        Message::ListUsersFailed => "Error trying to list users"@,
    }
}

impl Message {
    /// The text of the message, as the body of the answer.
    pub fn text(&self) -> (r: &'static str)
        ensures
            r@ == message_text(*self),
    {
        match self {
            Message::MustBeSignedIn => "Must be signed in",
            Message::MustBeInstructor => "Must be an instructor",
            Message::NoPkceVerifier => "Couldn't get pkce_code_verifier from session",
            Message::NoCsrfState => "Couldn't get csrf_state from session",
            Message::StateMismatch => "state parameter and csrf_state do not match",
            Message::NoToken => "Unable to obtain token",
            Message::NoUserInfo => "Unable to retrieve userinfo from Google API",
            Message::BadUserInfo => "Unable to deserialize userinfo from Google API",
            Message::UpdateUserFailed => "Unable to update user",
            Message::CreateUserFailed => "Unable to create user",
            Message::TestUserMissing => "Could not find test_instructor in DB",
            Message::NoSessionUser => "No user in session",
            Message::IdMismatch => "Error id in path and in json data must match",
            Message::CreateGroupFailed => "Error trying to create group",
            Message::ListGroupsFailed => "Error trying to list groups",
            Message::UpdateGroupFailed => "Error trying to update group",
            Message::GetGroupFailed => "Error trying to get group",
            Message::DeleteGroupFailed => "Error trying to delete group",
            Message::CreateJobFailed => "Error trying to create job",
            Message::GetJobFailed => "Error trying to get job",
            Message::ListJobsFailed => "Error trying to list jobs",
            Message::DeleteJobFailed => "Error trying to delete job",
            Message::CreateTestFailed => "Error trying to create test",
            Message::GetTestFailed => "Error trying to get test",
            Message::ListTestsFailed => "Error trying to list tests",
            Message::DeleteTestFailed => "Error trying to delete test",
            Message::UpdateTestFailed => "Error trying to update test",
            Message::UserNotFound => "User not found",
            Message::ListUsersFailed => "Error trying to list users",
        }
    }
}

/// An answer to a request.
#[derive(Debug, PartialEq, Eq)]
pub enum Reply {
    /// `200 OK` with the record as JSON.
    Json(Record),
    /// `302 Found` to `location`, with `user` saved in the session as the
    /// signed-in user.
    SignedIn { user: User, location: String },
    /// `400 Bad Request` with the message as body.
    BadRequest(Message),
    /// `401 Unauthorized` with the message as body.
    Unauthorized(Message),
}

pub enum ReplyView {
    Json(RecordView),
    SignedIn { user: UserView, location: Seq<char> },
    BadRequest(Message),
    Unauthorized(Message),
}

impl View for Reply {
    type V = ReplyView;

    open spec fn view(&self) -> ReplyView {
        match self {
            Reply::Json(r) => ReplyView::Json(r@),
            Reply::SignedIn { user, location } => ReplyView::SignedIn {
                user: user@,
                location: location@,
            },
            Reply::BadRequest(m) => ReplyView::BadRequest(*m),
            Reply::Unauthorized(m) => ReplyView::Unauthorized(*m),
        }
    }
}

/// Where a user lands after signing in.
pub open spec fn home() -> Seq<char> {
    "/rob/index.html"@
}

/// The page a user lands on after signing in.
pub fn home_location() -> (r: String)
    ensures
        r@ == home(),
{
    String::from_str("/rob/index.html")
}

/// The answer to a signed-in user.
pub open spec fn signed_in(user: UserView) -> ReplyView {
    ReplyView::SignedIn { user, location: home() }
}

/// Who is signed in, by the session: a request passes when someone is.
pub open spec fn signed_in_spec(session: Option<UserView>) -> Result<UserView, ReplyView> {
    match session {
        Some(u) => Ok(u),
        None => Err(ReplyView::Unauthorized(Message::MustBeSignedIn)),
    }
}

/// A request passes when an instructor is signed in.
pub open spec fn instructor_spec(session: Option<UserView>) -> Result<UserView, ReplyView> {
    match session {
        Some(u) => if u.instructor {
            Ok(u)
        } else {
            Err(ReplyView::Unauthorized(Message::MustBeInstructor))
        },
        None => Err(ReplyView::Unauthorized(Message::MustBeSignedIn)),
    }
}

pub open spec fn session_view(session: Option<User>) -> Option<UserView> {
    match session {
        Some(u) => Some(u@),
        None => None,
    }
}

pub open spec fn guard_view(r: Result<User, Reply>) -> Result<UserView, ReplyView> {
    match r {
        Ok(u) => Ok(u@),
        Err(e) => Err(e@),
    }
}

/// Lets a request through when a user is signed in; answers it otherwise.
pub fn auth_signed_in(session: Option<User>) -> (r: Result<User, Reply>)
    ensures
        guard_view(r) == signed_in_spec(session_view(session)),
{
    match session {
        Some(u) => Ok(u),
        None => Err(Reply::Unauthorized(Message::MustBeSignedIn)),
    }
}

/// Lets a request through when an instructor is signed in; answers it
/// otherwise.
pub fn auth_instructor(session: Option<User>) -> (r: Result<User, Reply>)
    ensures
        guard_view(r) == instructor_spec(session_view(session)),
{
    match auth_signed_in(session) {
        Ok(u) => if u.instructor {
            Ok(u)
        } else {
            Err(Reply::Unauthorized(Message::MustBeInstructor))
        },
        Err(e) => Err(e),
    }
}

/// A request to one of the JSON routes.
#[derive(Debug, PartialEq, Eq)]
pub enum Route {
    /// `POST /group`
    CreateGroup(Group),
    /// `GET /group`
    ListGroups,
    /// `PUT /group/{id}`
    UpdateGroup { path_id: i32, group: Group },
    /// `GET /group/{id}`
    GetGroup(i32),
    /// `DELETE /group/{id}`
    DeleteGroup(i32),
    /// `POST /job`
    CreateJob(Job),
    /// `GET /job/{id}`
    GetJob(i32),
    /// `GET /job`
    ListJobs,
    /// `DELETE /job/{id}`
    DeleteJob(i32),
    /// `POST /test`
    CreateTest(Test),
    /// `GET /test/{id}`
    GetTest(i32),
    /// `GET /test`
    ListTests,
    /// `DELETE /test/{id}`
    DeleteTest(i32),
    /// `PUT /test/{id}`
    UpdateTest { path_id: i32, test: Test },
    /// `GET /user/{ucid}`
    GetUser(String),
    /// `GET /user`
    ListUsers,
    /// `GET /session`
    GetSession,
    /// `GET /test_instructor`
    TestInstructor,
    /// `GET /test_student`
    TestStudent,
}

pub enum RouteView {
    CreateGroup(GroupView),
    ListGroups,
    UpdateGroup { path_id: i32, group: GroupView },
    GetGroup(i32),
    DeleteGroup(i32),
    CreateJob(JobView),
    GetJob(i32),
    ListJobs,
    DeleteJob(i32),
    CreateTest(TestView),
    GetTest(i32),
    ListTests,
    DeleteTest(i32),
    UpdateTest { path_id: i32, test: TestView },
    GetUser(Seq<char>),
    ListUsers,
    GetSession,
    TestInstructor,
    TestStudent,
}

impl View for Route {
    type V = RouteView;

    open spec fn view(&self) -> RouteView {
        match self {
            Route::CreateGroup(g) => RouteView::CreateGroup(g@),
            Route::ListGroups => RouteView::ListGroups,
            Route::UpdateGroup { path_id, group } => RouteView::UpdateGroup {
                path_id: *path_id,
                group: group@,
            },
            Route::GetGroup(id) => RouteView::GetGroup(*id),
            Route::DeleteGroup(id) => RouteView::DeleteGroup(*id),
            Route::CreateJob(j) => RouteView::CreateJob(j@),
            Route::GetJob(id) => RouteView::GetJob(*id),
            Route::ListJobs => RouteView::ListJobs,
            Route::DeleteJob(id) => RouteView::DeleteJob(*id),
            Route::CreateTest(t) => RouteView::CreateTest(t@),
            Route::GetTest(id) => RouteView::GetTest(*id),
            Route::ListTests => RouteView::ListTests,
            Route::DeleteTest(id) => RouteView::DeleteTest(*id),
            Route::UpdateTest { path_id, test } => RouteView::UpdateTest {
                path_id: *path_id,
                test: test@,
            },
            Route::GetUser(u) => RouteView::GetUser(u@),
            Route::ListUsers => RouteView::ListUsers,
            Route::GetSession => RouteView::GetSession,
            Route::TestInstructor => RouteView::TestInstructor,
            Route::TestStudent => RouteView::TestStudent,
        }
    }
}

/// How the outcome of a started operation is answered: with `failure` when
/// it fails; when `signs_in`, a user it yields is signed in, otherwise the
/// record is sent as JSON.
#[derive(Debug, Clone, Copy, PartialEq, Eq, Structural)]
pub struct Pending {
    pub failure: Message,
    pub signs_in: bool,
}

/// What a route does first.
#[derive(Debug, PartialEq, Eq)]
pub enum Begin {
    /// Answer at once.
    Answer(Reply),
    /// Run the operation, then answer its outcome by `finish`.
    Run { op: Op, pending: Pending },
}

pub enum BeginView {
    Answer(ReplyView),
    Run { op: OpView, pending: Pending },
}

impl View for Begin {
    type V = BeginView;

    open spec fn view(&self) -> BeginView {
        match self {
            Begin::Answer(r) => BeginView::Answer(r@),
            Begin::Run { op, pending } => BeginView::Run { op: op@, pending: *pending },
        }
    }
}

/// The routes only an instructor may call.
pub open spec fn for_instructors(route: RouteView) -> bool {
    !(route is GetSession || route is TestInstructor || route is TestStudent)
}

pub open spec fn run_json(op: OpView, failure: Message) -> BeginView {
    BeginView::Run { op, pending: Pending { failure, signs_in: false } }
}

/// The user the test sign-in routes sign in.
pub open spec fn test_account(route: RouteView) -> Seq<char> {
    if route is TestInstructor {
        "test_instructor"@
    } else {
        "test_student"@
    }
}

/// What a route does once its caller is allowed.
pub open spec fn allowed_spec(route: RouteView) -> BeginView {
    match route {
        RouteView::CreateGroup(g) => run_json(OpView::CreateGroup(g), Message::CreateGroupFailed),
        RouteView::ListGroups => run_json(OpView::ListGroups, Message::ListGroupsFailed),
        RouteView::UpdateGroup { path_id, group } => if path_id != group.id {
            BeginView::Answer(ReplyView::BadRequest(Message::IdMismatch))
        } else {
            run_json(OpView::UpdateGroup(group), Message::UpdateGroupFailed)
        },
        RouteView::GetGroup(id) => run_json(OpView::FindGroup(id), Message::GetGroupFailed),
        RouteView::DeleteGroup(id) => run_json(OpView::DeleteGroup(id), Message::DeleteGroupFailed),
        RouteView::CreateJob(j) => run_json(OpView::CreateJob(j), Message::CreateJobFailed),
        RouteView::GetJob(id) => run_json(OpView::FindJob(id), Message::GetJobFailed),
        RouteView::ListJobs => run_json(OpView::ListJobs, Message::ListJobsFailed),
        RouteView::DeleteJob(id) => run_json(OpView::DeleteJob(id), Message::DeleteJobFailed),
        RouteView::CreateTest(t) => run_json(OpView::CreateTest(t), Message::CreateTestFailed),
        RouteView::GetTest(id) => run_json(OpView::FindTest(id), Message::GetTestFailed),
        RouteView::ListTests => run_json(OpView::ListTests, Message::ListTestsFailed),
        RouteView::DeleteTest(id) => run_json(OpView::DeleteTest(id), Message::DeleteTestFailed),
        RouteView::UpdateTest { path_id, test } => if path_id != test.id {
            BeginView::Answer(ReplyView::BadRequest(Message::IdMismatch))
        } else {
            run_json(OpView::UpdateTest(test), Message::UpdateTestFailed)
        },
        RouteView::GetUser(ucid) => run_json(
            OpView::FindUser(lowercase(ucid)),
            Message::UserNotFound,
        ),
        RouteView::ListUsers => run_json(OpView::ListUsers, Message::ListUsersFailed),
        RouteView::GetSession => BeginView::Answer(ReplyView::BadRequest(Message::NoSessionUser)),
        RouteView::TestInstructor | RouteView::TestStudent => BeginView::Run {
            op: OpView::FindUser(test_account(route)),
            pending: Pending { failure: Message::TestUserMissing, signs_in: true },
        },
    }
}

/// What a route does first, given who is signed in.
pub open spec fn begin_spec(route: RouteView, session: Option<UserView>) -> BeginView {
    if route is GetSession {
        match session {
            Some(u) => BeginView::Answer(ReplyView::Json(RecordView::User(u))),
            None => BeginView::Answer(ReplyView::BadRequest(Message::NoSessionUser)),
        }
    } else if for_instructors(route) {
        match instructor_spec(session) {
            Ok(_) => allowed_spec(route),
            Err(reply) => BeginView::Answer(reply),
        }
    } else {
        allowed_spec(route)
    }
}

/// The requests the server serves without panicking: a test's timeout,
/// about to be stored, has an absolute value.
pub open spec fn is_servable(route: RouteView, session: Option<UserView>) -> bool {
    begin_spec(route, session) matches BeginView::Run { op, .. } ==> admissible(op)
}

fn json(failure: Message) -> (p: Pending)
    ensures
        p == (Pending { failure, signs_in: false }),
{
    Pending { failure, signs_in: false }
}

/// Whether `begin` may be called on a request: not when it would store a
/// test whose timeout `i32::abs` cannot take (the server panics there).
pub fn servable(route: &Route, session: &Option<User>) -> (r: bool)
    ensures
        r == is_servable(route@, session_view(*session)),
{
    let instructor = match session {
        Some(u) => u.instructor,
        None => false,
    };
    match route {
        Route::CreateTest(t) => !(instructor && t.command_timeout == i32::MIN),
        Route::UpdateTest { path_id, test } => !(instructor && *path_id == test.id
            && test.command_timeout == i32::MIN),
        _ => true,
    }
}

/// What a route does first.
pub fn begin(route: Route, session: Option<User>) -> (r: Begin)
    requires
        is_servable(route@, session_view(session)),
    ensures
        r@ == begin_spec(route@, session_view(session)),
{
    match route {
        Route::GetSession => {
            return match session {
                Some(u) => Begin::Answer(Reply::Json(Record::User(u))),
                None => Begin::Answer(Reply::BadRequest(Message::NoSessionUser)),
            };
        },
        Route::TestInstructor => {
            return Begin::Run {
                op: Op::FindUser(String::from_str("test_instructor")),
                pending: Pending { failure: Message::TestUserMissing, signs_in: true },
            };
        },
        Route::TestStudent => {
            return Begin::Run {
                op: Op::FindUser(String::from_str("test_student")),
                pending: Pending { failure: Message::TestUserMissing, signs_in: true },
            };
        },
        _ => {},
    }
    match auth_instructor(session) {
        Err(reply) => { return Begin::Answer(reply); },
        Ok(_) => {},
    }
    match route {
        Route::CreateGroup(g) => Begin::Run { op: Op::CreateGroup(g), pending: json(Message::CreateGroupFailed) },
        Route::ListGroups => Begin::Run { op: Op::ListGroups, pending: json(Message::ListGroupsFailed) },
        Route::UpdateGroup { path_id, group } => if path_id != group.id {
            Begin::Answer(Reply::BadRequest(Message::IdMismatch))
        } else {
            Begin::Run { op: Op::UpdateGroup(group), pending: json(Message::UpdateGroupFailed) }
        },
        Route::GetGroup(id) => Begin::Run { op: Op::FindGroup(id), pending: json(Message::GetGroupFailed) },
        Route::DeleteGroup(id) => Begin::Run { op: Op::DeleteGroup(id), pending: json(Message::DeleteGroupFailed) },
        Route::CreateJob(j) => Begin::Run { op: Op::CreateJob(j), pending: json(Message::CreateJobFailed) },
        Route::GetJob(id) => Begin::Run { op: Op::FindJob(id), pending: json(Message::GetJobFailed) },
        Route::ListJobs => Begin::Run { op: Op::ListJobs, pending: json(Message::ListJobsFailed) },
        Route::DeleteJob(id) => Begin::Run { op: Op::DeleteJob(id), pending: json(Message::DeleteJobFailed) },
        Route::CreateTest(t) => Begin::Run { op: Op::CreateTest(t), pending: json(Message::CreateTestFailed) },
        Route::GetTest(id) => Begin::Run { op: Op::FindTest(id), pending: json(Message::GetTestFailed) },
        Route::ListTests => Begin::Run { op: Op::ListTests, pending: json(Message::ListTestsFailed) },
        Route::DeleteTest(id) => Begin::Run { op: Op::DeleteTest(id), pending: json(Message::DeleteTestFailed) },
        Route::UpdateTest { path_id, test } => if path_id != test.id {
            Begin::Answer(Reply::BadRequest(Message::IdMismatch))
        } else {
            Begin::Run { op: Op::UpdateTest(test), pending: json(Message::UpdateTestFailed) }
        },
        Route::GetUser(ucid) => Begin::Run {
            op: Op::FindUser(to_lowercase(ucid.as_str())),
            pending: json(Message::UserNotFound),
        },
        Route::ListUsers => Begin::Run { op: Op::ListUsers, pending: json(Message::ListUsersFailed) },
        _ => Begin::Answer(Reply::BadRequest(Message::NoSessionUser)),
    }
}

pub open spec fn outcome_view(outcome: Result<Record, DbError>) -> Option<RecordView> {
    match outcome {
        Ok(r) => Some(r@),
        Err(_) => None,
    }
}

/// How a route answers the outcome of its operation.
pub open spec fn finish_spec(pending: Pending, outcome: Option<RecordView>) -> ReplyView {
    match outcome {
        Some(RecordView::User(u)) if pending.signs_in => signed_in(u),
        Some(r) if !pending.signs_in => ReplyView::Json(r),
        _ => ReplyView::BadRequest(pending.failure),
    }
}

/// Answers the outcome of a route's operation.
pub fn finish(pending: Pending, outcome: Result<Record, DbError>) -> (r: Reply)
    ensures
        r@ == finish_spec(pending, outcome_view(outcome)),
{
    match outcome {
        Ok(Record::User(user)) if pending.signs_in => Reply::SignedIn {
            user,
            location: home_location(),
        },
        Ok(record) if !pending.signs_in => Reply::Json(record),
        _ => Reply::BadRequest(pending.failure),
    }
}

} // verus!
