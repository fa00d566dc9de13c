//! Signing in with Google: the checks on what Google sends back, the user
//! record made from the Google profile, and how it is stored.
use vstd::prelude::*;
use crate::models::{AuthRequest, GoogleUserProfile, User, UserView};
use crate::routes::{home_location, signed_in, Message, Reply, ReplyView};
use crate::store::{DbAction, DbActionView, DbEvent, DbEventView};
use crate::text::{ucid_from_email, ucid_of};

verus! {

/// The scopes asked of Google when a user signs in.
pub open spec fn scopes() -> Seq<Seq<char>> {
    seq![
        "https://www.googleapis.com/auth/userinfo.profile"@,
        "https://www.googleapis.com/auth/userinfo.email"@,
    ]
}

/// The scopes asked of Google when a user signs in, in order.
pub fn login_scopes() -> (r: Vec<String>)
    ensures
        r.deep_view() == scopes(),
{
    let mut r: Vec<String> = Vec::new();
    r.push(String::from_str("https://www.googleapis.com/auth/userinfo.profile"));
    r.push(String::from_str("https://www.googleapis.com/auth/userinfo.email"));
    assert(r.deep_view() =~= scopes());
    r
}

/// What the sign-in asks of the outside world.
#[derive(Debug, PartialEq, Eq)]
pub enum SignInAction {
    /// Trade the authorization code for an access token, with the PKCE
    /// verifier kept in the session.
    ExchangeCode { code: String, pkce_verifier: String },
    /// Read the user's profile from Google's userinfo endpoint.
    FetchProfile { access_token: String },
    /// Run a statement on the users table.
    Db(DbAction),
}

/// What came of Google's userinfo endpoint.
#[derive(Debug, PartialEq, Eq)]
pub enum ProfileOutcome {
    /// The request did not get an answer.
    Unreachable,
    /// The answer was not a profile.
    Undecodable,
    Profile(GoogleUserProfile),
}

/// What came of the last action.
#[derive(Debug, PartialEq, Eq)]
pub enum SignInEvent {
    /// The access token, or `None` when the code could not be traded.
    Token(Option<String>),
    Profile(ProfileOutcome),
    Db(DbEvent),
}

/// What the caller does next.
#[derive(Debug)]
pub enum SignInStep {
    Next(SignIn, SignInAction),
    Answer(Reply),
}

#[derive(Debug)]
enum Phase {
    AwaitToken,
    AwaitProfile,
    AwaitFound { user: User },
    AwaitUpdated,
    AwaitCreated { user: User },
}

/// A sign-in under way.
#[derive(Debug)]
pub struct SignIn {
    phase: Phase,
}

pub struct ProfileView {
    pub id: Seq<char>,
    pub email: Seq<char>,
    pub verified_email: bool,
    pub name: Seq<char>,
    pub given_name: Seq<char>,
    pub family_name: Seq<char>,
    pub picture: Seq<char>,
    pub locale: Seq<char>,
    pub hd: Seq<char>,
}

impl View for GoogleUserProfile {
    type V = ProfileView;

    open spec fn view(&self) -> ProfileView {
        ProfileView {
            id: self.id@,
            email: self.email@,
            verified_email: self.verified_email,
            name: self.name@,
            given_name: self.given_name@,
            family_name: self.family_name@,
            picture: self.picture@,
            locale: self.locale@,
            hd: self.hd@,
        }
    }
}

pub enum SignInActionView {
    ExchangeCode { code: Seq<char>, pkce_verifier: Seq<char> },
    FetchProfile { access_token: Seq<char> },
    Db(DbActionView),
}

pub enum ProfileOutcomeView {
    Unreachable,
    Undecodable,
    Profile(ProfileView),
}

pub enum SignInEventView {
    Token(Option<Seq<char>>),
    Profile(ProfileOutcomeView),
    Db(DbEventView),
}

pub enum PhaseView {
    AwaitToken,
    AwaitProfile,
    AwaitFound { user: UserView },
    AwaitUpdated,
    AwaitCreated { user: UserView },
}

pub enum SignInStepView {
    Next(PhaseView, SignInActionView),
    Answer(ReplyView),
}

impl View for SignInAction {
    type V = SignInActionView;

    open spec fn view(&self) -> SignInActionView {
        match self {
            SignInAction::ExchangeCode { code, pkce_verifier } => SignInActionView::ExchangeCode {
                code: code@,
                pkce_verifier: pkce_verifier@,
            },
            SignInAction::FetchProfile { access_token } => SignInActionView::FetchProfile {
                access_token: access_token@,
            },
            SignInAction::Db(a) => SignInActionView::Db(a@),
        }
    }
}

impl View for SignInEvent {
    type V = SignInEventView;

    open spec fn view(&self) -> SignInEventView {
        match self {
            SignInEvent::Token(t) => SignInEventView::Token(t.deep_view()),
            SignInEvent::Profile(ProfileOutcome::Unreachable) => SignInEventView::Profile(
                ProfileOutcomeView::Unreachable,
            ),
            SignInEvent::Profile(ProfileOutcome::Undecodable) => SignInEventView::Profile(
                ProfileOutcomeView::Undecodable,
            ),
            SignInEvent::Profile(ProfileOutcome::Profile(p)) => SignInEventView::Profile(
                ProfileOutcomeView::Profile(p@),
            ),
            SignInEvent::Db(e) => SignInEventView::Db(e@),
        }
    }
}

impl View for Phase {
    type V = PhaseView;

    closed spec fn view(&self) -> PhaseView {
        match self {
            Phase::AwaitToken => PhaseView::AwaitToken,
            Phase::AwaitProfile => PhaseView::AwaitProfile,
            Phase::AwaitFound { user } => PhaseView::AwaitFound { user: user@ },
            Phase::AwaitUpdated => PhaseView::AwaitUpdated,
            Phase::AwaitCreated { user } => PhaseView::AwaitCreated { user: user@ },
        }
    }
}

impl View for SignIn {
    type V = PhaseView;

    closed spec fn view(&self) -> PhaseView {
        self.phase@
    }
}

impl View for SignInStep {
    type V = SignInStepView;

    open spec fn view(&self) -> SignInStepView {
        match self {
            SignInStep::Next(s, a) => SignInStepView::Next(s@, a@),
            SignInStep::Answer(r) => SignInStepView::Answer(r@),
        }
    }
}

/// The user made from a Google profile: its id is the e-mail's local part in
/// lower case, and it is no instructor.
pub open spec fn user_from_profile(p: ProfileView) -> UserView {
    UserView {
        ucid: ucid_of(p.email),
        instructor: false,
        google_id: p.id,
        google_email: p.email,
        google_verified_email: p.verified_email,
        google_name: p.name,
        google_given_name: p.given_name,
        google_family_name: p.family_name,
        google_picture: p.picture,
        google_locale: p.locale,
        google_hd: p.hd,
    }
}

pub open spec fn answer(m: Message) -> SignInStepView {
    SignInStepView::Answer(ReplyView::BadRequest(m))
}

/// The first step of a sign-in, from the session's PKCE verifier and CSRF
/// token and the query Google redirected with.
pub open spec fn begin_spec(
    pkce: Option<Seq<char>>,
    csrf: Option<Seq<char>>,
    code: Seq<char>,
    state: Seq<char>,
) -> SignInStepView {
    match (pkce, csrf) {
        (None, _) => answer(Message::NoPkceVerifier),
        (Some(_), None) => answer(Message::NoCsrfState),
        (Some(verifier), Some(token)) => if state != token {
            answer(Message::StateMismatch)
        } else {
            SignInStepView::Next(
                PhaseView::AwaitToken,
                SignInActionView::ExchangeCode { code, pkce_verifier: verifier },
            )
        },
    }
}

/// The next step of a sign-in. An event that is not the one awaited counts
/// as the failure of the awaited action.
pub open spec fn next_spec(p: PhaseView, e: SignInEventView) -> SignInStepView {
    match p {
        PhaseView::AwaitToken => match e {
            SignInEventView::Token(Some(token)) => SignInStepView::Next(
                PhaseView::AwaitProfile,
                SignInActionView::FetchProfile { access_token: token },
            ),
            _ => answer(Message::NoToken),
        },
        PhaseView::AwaitProfile => match e {
            SignInEventView::Profile(ProfileOutcomeView::Profile(profile)) => {
                let user = user_from_profile(profile);
                SignInStepView::Next(
                    PhaseView::AwaitFound { user },
                    SignInActionView::Db(DbActionView::SelectUser { ucid: user.ucid }),
                )
            },
            SignInEventView::Profile(ProfileOutcomeView::Undecodable) => answer(
                Message::BadUserInfo,
            ),
            _ => answer(Message::NoUserInfo),
        },
        PhaseView::AwaitFound { user } => match e {
            SignInEventView::Db(DbEventView::User(stored)) => SignInStepView::Next(
                PhaseView::AwaitUpdated,
                SignInActionView::Db(
                    DbActionView::UpdateUser(UserView { instructor: stored.instructor, ..user }),
                ),
            ),
            _ => SignInStepView::Next(
                PhaseView::AwaitCreated { user },
                SignInActionView::Db(DbActionView::InsertUser(user)),
            ),
        },
        PhaseView::AwaitUpdated => match e {
            SignInEventView::Db(DbEventView::User(updated)) => SignInStepView::Answer(
                signed_in(updated),
            ),
            _ => answer(Message::UpdateUserFailed),
        },
        PhaseView::AwaitCreated { user } => match e {
            SignInEventView::Db(DbEventView::Executed) => SignInStepView::Answer(signed_in(user)),
            _ => answer(Message::CreateUserFailed),
        },
    }
}

pub open spec fn opt_view(o: Option<String>) -> Option<Seq<char>> {
    o.deep_view()
}

fn bad(m: Message) -> (r: SignInStep)
    ensures
        r@ == answer(m),
{
    SignInStep::Answer(Reply::BadRequest(m))
}

fn new_user(p: GoogleUserProfile) -> (u: User)
    ensures
        u@ == user_from_profile(p@),
{
    let ucid = ucid_from_email(p.email.as_str());
    User {
        ucid,
        instructor: false,
        google_id: p.id,
        google_email: p.email,
        google_verified_email: p.verified_email,
        google_name: p.name,
        google_given_name: p.given_name,
        google_family_name: p.family_name,
        google_picture: p.picture,
        google_locale: p.locale,
        google_hd: p.hd,
    }
}

impl SignIn {
    /// Starts a sign-in from the session's PKCE verifier and CSRF token and
    /// the query Google redirected with.
    pub fn begin(pkce: Option<String>, csrf: Option<String>, params: AuthRequest) -> (r: SignInStep)
        ensures
            r@ == begin_spec(opt_view(pkce), opt_view(csrf), params.code@, params.state@),
    {
        match (pkce, csrf) {
            (None, _) => bad(Message::NoPkceVerifier),
            (Some(_), None) => bad(Message::NoCsrfState),
            (Some(verifier), Some(token)) => {
                if params.state != token {
                    bad(Message::StateMismatch)
                } else {
                    SignInStep::Next(
                        SignIn { phase: Phase::AwaitToken },
                        SignInAction::ExchangeCode { code: params.code, pkce_verifier: verifier },
                    )
                }
            },
        }
    }

    /// Takes what came of the last action.
    pub fn resume(self, e: SignInEvent) -> (r: SignInStep)
        ensures
            r@ == next_spec(self@, e@),
    {
        match self.phase {
            Phase::AwaitToken => match e {
                SignInEvent::Token(Some(token)) => SignInStep::Next(
                    SignIn { phase: Phase::AwaitProfile },
                    SignInAction::FetchProfile { access_token: token },
                ),
                _ => bad(Message::NoToken),
            },
            Phase::AwaitProfile => match e {
                SignInEvent::Profile(ProfileOutcome::Profile(profile)) => {
                    let user = new_user(profile);
                    let ucid = user.ucid.clone();
                    SignInStep::Next(
                        SignIn { phase: Phase::AwaitFound { user } },
                        SignInAction::Db(DbAction::SelectUser { ucid }),
                    )
                },
                SignInEvent::Profile(ProfileOutcome::Undecodable) => bad(Message::BadUserInfo),
                _ => bad(Message::NoUserInfo),
            },
            Phase::AwaitFound { user } => match e {
                SignInEvent::Db(DbEvent::User(stored)) => {
                    let mut user = user;
                    user.instructor = stored.instructor;
                    SignInStep::Next(
                        SignIn { phase: Phase::AwaitUpdated },
                        SignInAction::Db(DbAction::UpdateUser(user)),
                    )
                },
                _ => {
                    let kept = user.duplicate();
                    SignInStep::Next(
                        SignIn { phase: Phase::AwaitCreated { user: kept } },
                        SignInAction::Db(DbAction::InsertUser(user)),
                    )
                },
            },
            Phase::AwaitUpdated => match e {
                SignInEvent::Db(DbEvent::User(updated)) => SignInStep::Answer(
                    Reply::SignedIn { user: updated, location: home_location() },
                ),
                _ => bad(Message::UpdateUserFailed),
            },
            Phase::AwaitCreated { user } => match e {
                SignInEvent::Db(DbEvent::Executed) => SignInStep::Answer(
                    Reply::SignedIn { user, location: home_location() },
                ),
                _ => bad(Message::CreateUserFailed),
            },
        }
    }
}

} // verus!
