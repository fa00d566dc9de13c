use rob::models::{Group, Test, User};
use rob::routes::{auth_instructor, auth_signed_in, begin, finish, Begin, Message, Pending, Reply, Route};
use rob::store::{DbError, Op, Record};

fn s(x: &str) -> String {
    x.to_string()
}

fn user(ucid: &str, instructor: bool) -> User {
    User {
        ucid: s(ucid),
        instructor,
        google_id: s("g"),
        google_email: s("e@x"),
        google_verified_email: true,
        google_name: s("n"),
        google_given_name: s("n"),
        google_family_name: s("f"),
        google_picture: s("p"),
        google_locale: s("en"),
        google_hd: s("x"),
    }
}

fn test_of(id: i32) -> Test {
    Test {
        id,
        name: s("t"),
        description: s("d"),
        memsnapshot: None,
        tests_image: None,
        base_image: s("b"),
        command: s("c"),
        command_timeout: -3,
        prompt: s("p"),
        jobs: vec![],
    }
}

fn json(failure: Message) -> Pending {
    Pending { failure, signs_in: false }
}

#[test]
fn signed_out_caller_is_refused() {
    assert_eq!(begin(Route::ListUsers, None), Begin::Answer(Reply::Unauthorized(Message::MustBeSignedIn)));
    assert_eq!(begin(Route::DeleteJob(1), None), Begin::Answer(Reply::Unauthorized(Message::MustBeSignedIn)));
}

#[test]
fn student_is_refused_instructor_routes() {
    assert_eq!(
        begin(Route::ListGroups, Some(user("stu", false))),
        Begin::Answer(Reply::Unauthorized(Message::MustBeInstructor))
    );
    assert_eq!(
        begin(Route::CreateTest(test_of(0)), Some(user("stu", false))),
        Begin::Answer(Reply::Unauthorized(Message::MustBeInstructor))
    );
}

#[test]
fn guards_let_the_right_users_through() {
    assert_eq!(auth_signed_in(None), Err(Reply::Unauthorized(Message::MustBeSignedIn)));
    assert_eq!(auth_signed_in(Some(user("a", false))), Ok(user("a", false)));
    assert_eq!(auth_instructor(Some(user("a", false))), Err(Reply::Unauthorized(Message::MustBeInstructor)));
    assert_eq!(auth_instructor(Some(user("i", true))), Ok(user("i", true)));
    assert_eq!(auth_instructor(None), Err(Reply::Unauthorized(Message::MustBeSignedIn)));
}

#[test]
fn instructor_routes_start_their_operations() {
    let i = || Some(user("prof", true));
    assert_eq!(begin(Route::ListGroups, i()), Begin::Run { op: Op::ListGroups, pending: json(Message::ListGroupsFailed) });
    assert_eq!(begin(Route::GetGroup(2), i()), Begin::Run { op: Op::FindGroup(2), pending: json(Message::GetGroupFailed) });
    assert_eq!(begin(Route::DeleteGroup(2), i()), Begin::Run { op: Op::DeleteGroup(2), pending: json(Message::DeleteGroupFailed) });
    assert_eq!(begin(Route::GetJob(3), i()), Begin::Run { op: Op::FindJob(3), pending: json(Message::GetJobFailed) });
    assert_eq!(begin(Route::ListJobs, i()), Begin::Run { op: Op::ListJobs, pending: json(Message::ListJobsFailed) });
    assert_eq!(begin(Route::GetTest(4), i()), Begin::Run { op: Op::FindTest(4), pending: json(Message::GetTestFailed) });
    assert_eq!(begin(Route::ListTests, i()), Begin::Run { op: Op::ListTests, pending: json(Message::ListTestsFailed) });
    assert_eq!(begin(Route::DeleteTest(4), i()), Begin::Run { op: Op::DeleteTest(4), pending: json(Message::DeleteTestFailed) });
    assert_eq!(begin(Route::ListUsers, i()), Begin::Run { op: Op::ListUsers, pending: json(Message::ListUsersFailed) });
    assert_eq!(
        begin(Route::CreateTest(test_of(0)), i()),
        Begin::Run { op: Op::CreateTest(test_of(0)), pending: json(Message::CreateTestFailed) }
    );
}

#[test]
fn update_with_other_id_in_path_is_refused() {
    let g = Group { id: 1, name: s("n"), git_url: s("u"), members: vec![] };
    assert_eq!(
        begin(Route::UpdateGroup { path_id: 2, group: g.clone() }, Some(user("prof", true))),
        Begin::Answer(Reply::BadRequest(Message::IdMismatch))
    );
    assert_eq!(
        begin(Route::UpdateGroup { path_id: 1, group: g.clone() }, Some(user("prof", true))),
        Begin::Run { op: Op::UpdateGroup(g), pending: json(Message::UpdateGroupFailed) }
    );
    assert_eq!(
        begin(Route::UpdateTest { path_id: 5, test: test_of(6) }, Some(user("prof", true))),
        Begin::Answer(Reply::BadRequest(Message::IdMismatch))
    );
    assert_eq!(
        begin(Route::UpdateTest { path_id: 6, test: test_of(6) }, Some(user("prof", true))),
        Begin::Run { op: Op::UpdateTest(test_of(6)), pending: json(Message::UpdateTestFailed) }
    );
}

#[test]
fn user_lookup_is_lowercased() {
    assert_eq!(
        begin(Route::GetUser(s("AbC12")), Some(user("prof", true))),
        Begin::Run { op: Op::FindUser(s("abc12")), pending: json(Message::UserNotFound) }
    );
}

#[test]
fn session_route_answers_session_user() {
    assert_eq!(begin(Route::GetSession, Some(user("a", false))), Begin::Answer(Reply::Json(Record::User(user("a", false)))));
    assert_eq!(begin(Route::GetSession, None), Begin::Answer(Reply::BadRequest(Message::NoSessionUser)));
}

#[test]
fn test_accounts_sign_in() {
    let signs_in = Pending { failure: Message::TestUserMissing, signs_in: true };
    assert_eq!(begin(Route::TestInstructor, None), Begin::Run { op: Op::FindUser(s("test_instructor")), pending: signs_in });
    assert_eq!(begin(Route::TestStudent, None), Begin::Run { op: Op::FindUser(s("test_student")), pending: signs_in });
    assert_eq!(
        finish(signs_in, Ok(Record::User(user("test_student", false)))),
        Reply::SignedIn { user: user("test_student", false), location: s("/rob/index.html") }
    );
    assert_eq!(finish(signs_in, Err(DbError)), Reply::BadRequest(Message::TestUserMissing));
    assert_eq!(Message::TestUserMissing.text(), "Could not find test_instructor in DB");
}

#[test]
fn outcomes_are_answered() {
    assert_eq!(finish(json(Message::GetJobFailed), Ok(Record::Id(4))), Reply::Json(Record::Id(4)));
    assert_eq!(finish(json(Message::GetJobFailed), Err(DbError)), Reply::BadRequest(Message::GetJobFailed));
}

#[test]
fn message_texts() {
    assert_eq!(Message::MustBeSignedIn.text(), "Must be signed in");
    assert_eq!(Message::MustBeInstructor.text(), "Must be an instructor");
    assert_eq!(Message::IdMismatch.text(), "Error id in path and in json data must match");
    assert_eq!(Message::CreateGroupFailed.text(), "Error trying to create group");
    assert_eq!(Message::UserNotFound.text(), "User not found");
    assert_eq!(Message::NoSessionUser.text(), "No user in session");
    assert_eq!(Message::StateMismatch.text(), "state parameter and csrf_state do not match");
}
