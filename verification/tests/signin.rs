use rob::models::{AuthRequest, GoogleUserProfile, User};
use rob::routes::{Message, Reply};
use rob::signin::{login_scopes, ProfileOutcome, SignIn, SignInAction, SignInEvent, SignInStep};
use rob::store::{DbAction, DbEvent};

fn s(x: &str) -> String {
    x.to_string()
}

fn params(state: &str) -> AuthRequest {
    AuthRequest { code: s("the-code"), state: s(state), scope: s("email") }
}

fn profile() -> GoogleUserProfile {
    GoogleUserProfile {
        id: s("1234"),
        email: s("Jane.Roe@NJIT.edu"),
        verified_email: true,
        name: s("Jane Roe"),
        given_name: s("Jane"),
        family_name: s("Roe"),
        picture: s("pic"),
        locale: s("en"),
        hd: s("njit.edu"),
    }
}

fn expected_user(instructor: bool) -> User {
    User {
        ucid: s("jane.roe"),
        instructor,
        google_id: s("1234"),
        google_email: s("Jane.Roe@NJIT.edu"),
        google_verified_email: true,
        google_name: s("Jane Roe"),
        google_given_name: s("Jane"),
        google_family_name: s("Roe"),
        google_picture: s("pic"),
        google_locale: s("en"),
        google_hd: s("njit.edu"),
    }
}

fn next(step: SignInStep) -> (SignIn, SignInAction) {
    match step {
        SignInStep::Next(sign_in, action) => (sign_in, action),
        SignInStep::Answer(r) => panic!("expected an action, got {:?}", r),
    }
}

fn answer(step: SignInStep) -> Reply {
    match step {
        SignInStep::Answer(r) => r,
        SignInStep::Next(_, a) => panic!("expected an answer, got {:?}", a),
    }
}

fn to_profile_phase() -> SignIn {
    let (si, _) = next(SignIn::begin(Some(s("verifier")), Some(s("csrf")), params("csrf")));
    let (si, _) = next(si.resume(SignInEvent::Token(Some(s("tok")))));
    si
}

#[test]
fn missing_session_values_are_refused() {
    assert_eq!(answer(SignIn::begin(None, Some(s("c")), params("c"))), Reply::BadRequest(Message::NoPkceVerifier));
    assert_eq!(answer(SignIn::begin(Some(s("v")), None, params("c"))), Reply::BadRequest(Message::NoCsrfState));
}

#[test]
fn forged_state_is_refused() {
    assert_eq!(
        answer(SignIn::begin(Some(s("v")), Some(s("csrf")), params("other"))),
        Reply::BadRequest(Message::StateMismatch)
    );
}

#[test]
fn matching_state_trades_the_code() {
    let (_si, action) = next(SignIn::begin(Some(s("v")), Some(s("csrf")), params("csrf")));
    assert_eq!(action, SignInAction::ExchangeCode { code: s("the-code"), pkce_verifier: s("v") });
}

#[test]
fn failed_token_exchange_is_reported() {
    let (si, _) = next(SignIn::begin(Some(s("v")), Some(s("csrf")), params("csrf")));
    assert_eq!(answer(si.resume(SignInEvent::Token(None))), Reply::BadRequest(Message::NoToken));
}

#[test]
fn profile_failures_are_reported() {
    let si = to_profile_phase();
    assert_eq!(answer(si.resume(SignInEvent::Profile(ProfileOutcome::Unreachable))), Reply::BadRequest(Message::NoUserInfo));
    let si = to_profile_phase();
    assert_eq!(answer(si.resume(SignInEvent::Profile(ProfileOutcome::Undecodable))), Reply::BadRequest(Message::BadUserInfo));
}

#[test]
fn first_sign_in_creates_a_student() {
    let (si, action) = next(SignIn::begin(Some(s("v")), Some(s("csrf")), params("csrf")));
    assert_eq!(action, SignInAction::ExchangeCode { code: s("the-code"), pkce_verifier: s("v") });
    let (si, action) = next(si.resume(SignInEvent::Token(Some(s("tok")))));
    assert_eq!(action, SignInAction::FetchProfile { access_token: s("tok") });
    let (si, action) = next(si.resume(SignInEvent::Profile(ProfileOutcome::Profile(profile()))));
    assert_eq!(action, SignInAction::Db(DbAction::SelectUser { ucid: s("jane.roe") }));
    let (si, action) = next(si.resume(SignInEvent::Db(DbEvent::Failed)));
    assert_eq!(action, SignInAction::Db(DbAction::InsertUser(expected_user(false))));
    assert_eq!(
        answer(si.resume(SignInEvent::Db(DbEvent::Executed))),
        Reply::SignedIn { user: expected_user(false), location: s("/rob/index.html") }
    );
}

#[test]
fn returning_instructor_keeps_role() {
    let si = to_profile_phase();
    let (si, _) = next(si.resume(SignInEvent::Profile(ProfileOutcome::Profile(profile()))));
    let mut stored = expected_user(true);
    stored.google_name = s("Old Name");
    let (si, action) = next(si.resume(SignInEvent::Db(DbEvent::User(stored))));
    assert_eq!(action, SignInAction::Db(DbAction::UpdateUser(expected_user(true))));
    assert_eq!(
        answer(si.resume(SignInEvent::Db(DbEvent::User(expected_user(true))))),
        Reply::SignedIn { user: expected_user(true), location: s("/rob/index.html") }
    );
}

#[test]
fn store_failures_during_sign_in_are_reported() {
    let si = to_profile_phase();
    let (si, _) = next(si.resume(SignInEvent::Profile(ProfileOutcome::Profile(profile()))));
    let (si, _) = next(si.resume(SignInEvent::Db(DbEvent::User(expected_user(false)))));
    assert_eq!(answer(si.resume(SignInEvent::Db(DbEvent::Failed))), Reply::BadRequest(Message::UpdateUserFailed));

    let si = to_profile_phase();
    let (si, _) = next(si.resume(SignInEvent::Profile(ProfileOutcome::Profile(profile()))));
    let (si, _) = next(si.resume(SignInEvent::Db(DbEvent::Failed)));
    assert_eq!(answer(si.resume(SignInEvent::Db(DbEvent::Failed))), Reply::BadRequest(Message::CreateUserFailed));
}

#[test]
fn login_asks_for_profile_and_email() {
    assert_eq!(
        login_scopes(),
        vec![
            s("https://www.googleapis.com/auth/userinfo.profile"),
            s("https://www.googleapis.com/auth/userinfo.email"),
        ]
    );
}
