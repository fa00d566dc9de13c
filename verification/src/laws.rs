//! What the routes and the sign-in guarantee, over whole requests.
use vstd::prelude::*;
use crate::models::{GroupView, JobView, TestView, User, UserView};
use crate::routes::{
    begin_spec, finish_spec, for_instructors, instructor_spec, is_servable, message_text,
    guard_view, outcome_view, session_view, signed_in_spec, Message, Pending, Reply, ReplyView,
    RouteView, BeginView,
};
use crate::signin::{
    begin_spec as sign_in_begin, next_spec as sign_in_next, PhaseView,
    ProfileOutcomeView, ProfileView, SignInActionView, SignInEventView, SignInStepView,
};
use crate::store::{DbActionView, DbError, DbEventView, OpView, Record, RecordView};
use crate::text::{lowercase, ucid_of};

verus! {

/// The answer that signs `user` in: a redirect to the home page.
pub open spec fn landing(user: UserView) -> ReplyView {
    ReplyView::SignedIn { user, location: "/rob/index.html"@ }
}

/// The user a Google profile describes, on first sign-in.
pub open spec fn profile_user(p: ProfileView) -> UserView {
    UserView {
        ucid: ucid_of(p.email),
        instructor: false,
        google_id: p.id,
        google_email: p.email,
        google_verified_email: p.verified_email,
        google_name: p.name,
        google_given_name: p.given_name,
        google_family_name: p.family_name,
        google_picture: p.picture,
        google_locale: p.locale,
        google_hd: p.hd,
    }
}

/// A route for instructors refuses a caller who is not signed in, or who is
/// no instructor, and starts no operation for them.
pub proof fn law_instructor_routes(route: RouteView, session: Option<UserView>)
    requires
        for_instructors(route),
    ensures
        session is None ==> begin_spec(route, session) == BeginView::Answer(
            ReplyView::Unauthorized(Message::MustBeSignedIn),
        ),
        (session matches Some(u) && !u.instructor) ==> begin_spec(route, session)
            == BeginView::Answer(ReplyView::Unauthorized(Message::MustBeInstructor)),
        begin_spec(route, session) is Run ==> (session matches Some(u) && u.instructor),
{
}

/// An update whose path names another id than its body is refused, and no
/// operation runs; otherwise the body is written.
pub proof fn law_update_ids_must_match(
    session: Option<UserView>,
    path_id: i32,
    group: GroupView,
    test: TestView,
)
    requires
        session matches Some(u) && u.instructor,
    ensures
        path_id != group.id ==> begin_spec(RouteView::UpdateGroup { path_id, group }, session)
            == BeginView::Answer(ReplyView::BadRequest(Message::IdMismatch)),
        path_id != test.id ==> begin_spec(RouteView::UpdateTest { path_id, test }, session)
            == BeginView::Answer(ReplyView::BadRequest(Message::IdMismatch)),
        path_id == group.id ==> begin_spec(RouteView::UpdateGroup { path_id, group }, session)
            == (BeginView::Run {
            op: OpView::UpdateGroup(group),
            pending: Pending { failure: Message::UpdateGroupFailed, signs_in: false },
        }),
        path_id == test.id ==> begin_spec(RouteView::UpdateTest { path_id, test }, session)
            == (BeginView::Run {
            op: OpView::UpdateTest(test),
            pending: Pending { failure: Message::UpdateTestFailed, signs_in: false },
        }),
{
}

/// `/session` answers with the signed-in user, or says there is none; it
/// never needs an instructor.
pub proof fn law_session_route(session: Option<UserView>)
    ensures
        session matches Some(u) ==> begin_spec(RouteView::GetSession, session)
            == BeginView::Answer(ReplyView::Json(RecordView::User(u))),
        session is None ==> begin_spec(RouteView::GetSession, session) == BeginView::Answer(
            ReplyView::BadRequest(Message::NoSessionUser),
        ),
{
}

/// A user is looked up by the lower-case form of the id in the path.
pub proof fn law_user_lookup_lowercases(ucid: Seq<char>, session: Option<UserView>)
    requires
        session matches Some(u) && u.instructor,
    ensures
        begin_spec(RouteView::GetUser(ucid), session) matches BeginView::Run {
            op: OpView::FindUser(key),
            ..
        } && key == lowercase(ucid),
{
}

/// A failed operation is answered with its route's message; a successful
/// one with its record, or, for the test accounts, by signing the user in.
pub proof fn law_outcomes(pending: Pending, record: RecordView, user: UserView)
    ensures
        finish_spec(pending, None) == ReplyView::BadRequest(pending.failure),
        !pending.signs_in ==> finish_spec(pending, Some(record)) == ReplyView::Json(record),
        pending.signs_in ==> finish_spec(pending, Some(RecordView::User(user))) == landing(user),
        (pending.signs_in && !(record is User)) ==> finish_spec(pending, Some(record))
            == ReplyView::BadRequest(pending.failure),
{
}

/// The test accounts are signed in whoever asks, by their fixed ids.
pub proof fn law_test_accounts(session: Option<UserView>)
    ensures
        begin_spec(RouteView::TestInstructor, session) == (BeginView::Run {
            op: OpView::FindUser("test_instructor"@),
            pending: Pending { failure: Message::TestUserMissing, signs_in: true },
        }),
        begin_spec(RouteView::TestStudent, session) == (BeginView::Run {
            op: OpView::FindUser("test_student"@),
            pending: Pending { failure: Message::TestUserMissing, signs_in: true },
        }),
{
}

/// The code is traded for a token only when the session holds a PKCE
/// verifier and a CSRF token and Google sent that CSRF token back.
pub proof fn law_csrf_guard(
    pkce: Option<Seq<char>>,
    csrf: Option<Seq<char>>,
    code: Seq<char>,
    state: Seq<char>,
)
    ensures
        (sign_in_begin(pkce, csrf, code, state) is Next) <==> (pkce is Some && csrf
            == Some(state)),
        (pkce is Some && (csrf matches Some(token) && token != state)) ==> sign_in_begin(
            pkce,
            csrf,
            code,
            state,
        ) == SignInStepView::Answer(ReplyView::BadRequest(Message::StateMismatch)),
        pkce is Some && csrf == Some(state) ==> sign_in_begin(pkce, csrf, code, state)
            == SignInStepView::Next(
            PhaseView::AwaitToken,
            SignInActionView::ExchangeCode { code, pkce_verifier: pkce->0 },
        ),
{
}

/// A first sign-in: the profile read with the token gives a user whose id
/// is the lower-cased local part of the e-mail address and who is no
/// instructor; it is looked up by that id, and, not being found, stored and
/// signed in.
pub proof fn law_first_sign_in(token: Seq<char>, profile: ProfileView, not_found: DbEventView)
    requires
        !(not_found is User),
    ensures
        ({
            let user = profile_user(profile);
            &&& sign_in_next(PhaseView::AwaitToken, SignInEventView::Token(Some(token)))
                == SignInStepView::Next(
                PhaseView::AwaitProfile,
                SignInActionView::FetchProfile { access_token: token },
            )
            &&& sign_in_next(
                PhaseView::AwaitProfile,
                SignInEventView::Profile(ProfileOutcomeView::Profile(profile)),
            ) == SignInStepView::Next(
                PhaseView::AwaitFound { user },
                SignInActionView::Db(DbActionView::SelectUser { ucid: ucid_of(profile.email) }),
            )
            &&& sign_in_next(PhaseView::AwaitFound { user }, SignInEventView::Db(not_found))
                == SignInStepView::Next(
                PhaseView::AwaitCreated { user },
                SignInActionView::Db(DbActionView::InsertUser(user)),
            )
            &&& sign_in_next(
                PhaseView::AwaitCreated { user },
                SignInEventView::Db(DbEventView::Executed),
            ) == SignInStepView::Answer(landing(user))
        }),
{
}

/// A returning user keeps the role stored for them: the stored record is
/// rewritten from the Google profile with the stored `instructor` flag, and
/// the user is signed in as the database returns them.
pub proof fn law_returning_user_keeps_role(user: UserView, stored: UserView, updated: UserView)
    ensures
        sign_in_next(PhaseView::AwaitFound { user }, SignInEventView::Db(DbEventView::User(stored)))
            == SignInStepView::Next(
            PhaseView::AwaitUpdated,
            SignInActionView::Db(
                DbActionView::UpdateUser(UserView { instructor: stored.instructor, ..user }),
            ),
        ),
        sign_in_next(PhaseView::AwaitUpdated, SignInEventView::Db(DbEventView::User(updated)))
            == SignInStepView::Answer(landing(updated)),
        sign_in_next(PhaseView::AwaitUpdated, SignInEventView::Db(DbEventView::Failed))
            == SignInStepView::Answer(ReplyView::BadRequest(Message::UpdateUserFailed)),
{
}

/// Each failed step of a sign-in is answered with its own message.
pub proof fn law_sign_in_failures(user: UserView, e: DbEventView)
    ensures
        sign_in_next(PhaseView::AwaitToken, SignInEventView::Token(None)) == SignInStepView::Answer(
            ReplyView::BadRequest(Message::NoToken),
        ),
        sign_in_next(
            PhaseView::AwaitProfile,
            SignInEventView::Profile(ProfileOutcomeView::Unreachable),
        ) == SignInStepView::Answer(ReplyView::BadRequest(Message::NoUserInfo)),
        sign_in_next(
            PhaseView::AwaitProfile,
            SignInEventView::Profile(ProfileOutcomeView::Undecodable),
        ) == SignInStepView::Answer(ReplyView::BadRequest(Message::BadUserInfo)),
        !(e is User) ==> sign_in_next(PhaseView::AwaitUpdated, SignInEventView::Db(e))
            == SignInStepView::Answer(ReplyView::BadRequest(Message::UpdateUserFailed)),
        !(e is Executed) ==> sign_in_next(PhaseView::AwaitCreated { user }, SignInEventView::Db(e))
            == SignInStepView::Answer(ReplyView::BadRequest(Message::CreateUserFailed)),
{
}

/// For an instructor, each route starts the operation on its own kind of
/// record, with exactly what the request carries, and names the message
/// its failure is answered with.
pub proof fn law_routes_start_their_operation(
    session: Option<UserView>,
    g: GroupView,
    j: JobView,
    t: TestView,
    id: i32,
)
    requires
        session matches Some(u) && u.instructor,
    ensures
        begin_spec(RouteView::CreateGroup(g), session) == (BeginView::Run {
            op: OpView::CreateGroup(g),
            pending: Pending { failure: Message::CreateGroupFailed, signs_in: false },
        }),
        begin_spec(RouteView::ListGroups, session) == (BeginView::Run {
            op: OpView::ListGroups,
            pending: Pending { failure: Message::ListGroupsFailed, signs_in: false },
        }),
        begin_spec(RouteView::GetGroup(id), session) == (BeginView::Run {
            op: OpView::FindGroup(id),
            pending: Pending { failure: Message::GetGroupFailed, signs_in: false },
        }),
        begin_spec(RouteView::DeleteGroup(id), session) == (BeginView::Run {
            op: OpView::DeleteGroup(id),
            pending: Pending { failure: Message::DeleteGroupFailed, signs_in: false },
        }),
        begin_spec(RouteView::CreateJob(j), session) == (BeginView::Run {
            op: OpView::CreateJob(j),
            pending: Pending { failure: Message::CreateJobFailed, signs_in: false },
        }),
        begin_spec(RouteView::GetJob(id), session) == (BeginView::Run {
            op: OpView::FindJob(id),
            pending: Pending { failure: Message::GetJobFailed, signs_in: false },
        }),
        begin_spec(RouteView::ListJobs, session) == (BeginView::Run {
            op: OpView::ListJobs,
            pending: Pending { failure: Message::ListJobsFailed, signs_in: false },
        }),
        begin_spec(RouteView::DeleteJob(id), session) == (BeginView::Run {
            op: OpView::DeleteJob(id),
            pending: Pending { failure: Message::DeleteJobFailed, signs_in: false },
        }),
        begin_spec(RouteView::CreateTest(t), session) == (BeginView::Run {
            op: OpView::CreateTest(t),
            pending: Pending { failure: Message::CreateTestFailed, signs_in: false },
        }),
        begin_spec(RouteView::GetTest(id), session) == (BeginView::Run {
            op: OpView::FindTest(id),
            pending: Pending { failure: Message::GetTestFailed, signs_in: false },
        }),
        begin_spec(RouteView::ListTests, session) == (BeginView::Run {
            op: OpView::ListTests,
            pending: Pending { failure: Message::ListTestsFailed, signs_in: false },
        }),
        begin_spec(RouteView::DeleteTest(id), session) == (BeginView::Run {
            op: OpView::DeleteTest(id),
            pending: Pending { failure: Message::DeleteTestFailed, signs_in: false },
        }),
        begin_spec(RouteView::ListUsers, session) == (BeginView::Run {
            op: OpView::ListUsers,
            pending: Pending { failure: Message::ListUsersFailed, signs_in: false },
        }),
{
}

/// The guards: anyone signed in passes the first, only an instructor the
/// second; the others are told why not.
pub proof fn law_guards(u: UserView)
    ensures
        signed_in_spec(Some(u)) == Ok::<UserView, ReplyView>(u),
        signed_in_spec(None) == Err::<UserView, ReplyView>(
            ReplyView::Unauthorized(Message::MustBeSignedIn),
        ),
        u.instructor ==> instructor_spec(Some(u)) == Ok::<UserView, ReplyView>(u),
        !u.instructor ==> instructor_spec(Some(u)) == Err::<UserView, ReplyView>(
            ReplyView::Unauthorized(Message::MustBeInstructor),
        ),
        instructor_spec(None) == Err::<UserView, ReplyView>(
            ReplyView::Unauthorized(Message::MustBeSignedIn),
        ),
{
}

/// A request is refused as unservable only when an instructor asks to store
/// a test whose timeout is `i32::MIN` (and, for an update, the ids match).
pub proof fn law_servable(session: Option<UserView>, route: RouteView)
    ensures
        !is_servable(route, session) <==> (session matches Some(u) && u.instructor && (match route {
            RouteView::CreateTest(t) => t.command_timeout == i32::MIN,
            RouteView::UpdateTest { path_id, test } => path_id == test.id && test.command_timeout
                == i32::MIN,
            _ => false,
        })),
{
}

/// The texts of the messages.
pub proof fn law_message_texts()
    ensures
        message_text(Message::MustBeSignedIn) == "Must be signed in"@,
        message_text(Message::MustBeInstructor) == "Must be an instructor"@,
        message_text(Message::NoPkceVerifier) == "Couldn't get pkce_code_verifier from session"@,
        message_text(Message::NoCsrfState) == "Couldn't get csrf_state from session"@,
        message_text(Message::StateMismatch) == "state parameter and csrf_state do not match"@,
        message_text(Message::NoToken) == "Unable to obtain token"@,
        message_text(Message::NoUserInfo) == "Unable to retrieve userinfo from Google API"@,
        message_text(Message::BadUserInfo) == "Unable to deserialize userinfo from Google API"@,
        message_text(Message::UpdateUserFailed) == "Unable to update user"@,
        message_text(Message::CreateUserFailed) == "Unable to create user"@,
        message_text(Message::TestUserMissing) == "Could not find test_instructor in DB"@,
        message_text(Message::NoSessionUser) == "No user in session"@,
        message_text(Message::IdMismatch) == "Error id in path and in json data must match"@,
        message_text(Message::CreateGroupFailed) == "Error trying to create group"@,
        message_text(Message::ListGroupsFailed) == "Error trying to list groups"@,
        message_text(Message::UpdateGroupFailed) == "Error trying to update group"@,
        message_text(Message::GetGroupFailed) == "Error trying to get group"@,
        message_text(Message::DeleteGroupFailed) == "Error trying to delete group"@,
        message_text(Message::CreateJobFailed) == "Error trying to create job"@,
        message_text(Message::GetJobFailed) == "Error trying to get job"@,
        message_text(Message::ListJobsFailed) == "Error trying to list jobs"@,
        message_text(Message::DeleteJobFailed) == "Error trying to delete job"@,
        message_text(Message::CreateTestFailed) == "Error trying to create test"@,
        message_text(Message::GetTestFailed) == "Error trying to get test"@,
        message_text(Message::ListTestsFailed) == "Error trying to list tests"@,
        message_text(Message::DeleteTestFailed) == "Error trying to delete test"@,
        message_text(Message::UpdateTestFailed) == "Error trying to update test"@,
        message_text(Message::UserNotFound) == "User not found"@,
        message_text(Message::ListUsersFailed) == "Error trying to list users"@,
{
}

/// The session, a guard's verdict and an operation's outcome are seen
/// through their values: no user is no user, a failure is no record.
pub proof fn law_outcome_views(u: User, r: Record, reply: Reply)
    ensures
        session_view(Some(u)) == Some(u@),
        session_view(None) == None::<UserView>,
        guard_view(Ok(u)) == Ok::<UserView, ReplyView>(u@),
        guard_view(Err(reply)) == Err::<UserView, ReplyView>(reply@),
        outcome_view(Ok(r)) == Some(r@),
        outcome_view(Err(DbError)) == None::<RecordView>,
{
}

} // verus!
