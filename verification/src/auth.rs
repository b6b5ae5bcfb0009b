//! Who the caller is: signing in, registering, signing out, and the user behind a request.
//!
//! A signed-in client holds a cookie with the user's id. Passwords are kept as Argon2
//! hashes in the PHC string format.

use vstd::prelude::*;
use argon2::password_hash::rand_core::OsRng;
use argon2::password_hash::{PasswordHash, PasswordHasher, PasswordVerifier, SaltString};
use argon2::Argon2;
use crate::gateway::{Query, QueryView, Reply, ReplyView, Step, StepView};
use crate::models::{NewUser, NewUserView, User, UserView};
use crate::status::Status;
use crate::text::{decimal, decimal_digits, parse_decimal, spec_parse_decimal};

verus! {

/// The name of the cookie that holds the user's id.
pub const AUTH_COOKIE: &'static str = "auth";

/// The fewest bytes that a new password may have.
pub const MIN_PASSWORD_LEN: usize = 8;

/// A request that was turned down, and the words that say why.
#[derive(Clone, Copy, Debug, PartialEq, Eq)]
pub struct Refusal {
    pub status: Status,
    pub message: &'static str,
}

/// What a [`Refusal`] is to a contract.
pub struct RefusalView {
    pub status: Status,
    pub message: Seq<char>,
}

impl DeepView for Refusal {
    type V = RefusalView;

    open spec fn deep_view(&self) -> RefusalView {
        RefusalView { status: self.status, message: self.message@ }
    }
}

impl View for Refusal {
    type V = RefusalView;

    open spec fn view(&self) -> RefusalView {
        self.deep_view()
    }
}

/// A cookie that the client is to keep.
#[derive(Clone, Debug, PartialEq, Eq)]
pub struct SessionCookie {
    pub name: &'static str,
    pub value: String,
}

/// What a [`SessionCookie`] is to a contract.
pub struct SessionCookieView {
    pub name: Seq<char>,
    pub value: Seq<char>,
}

impl DeepView for SessionCookie {
    type V = SessionCookieView;

    open spec fn deep_view(&self) -> SessionCookieView {
        SessionCookieView { name: self.name@, value: self.value@ }
    }
}

impl View for SessionCookie {
    type V = SessionCookieView;

    open spec fn view(&self) -> SessionCookieView {
        self.deep_view()
    }
}

/// The answer to a request that signs a user in.
#[derive(Clone, Copy, Debug, PartialEq, Eq)]
pub struct GenericResponse {
    pub error: bool,
    pub message: Option<&'static str>,
}

/// What a [`GenericResponse`] is to a contract.
pub struct GenericResponseView {
    pub error: bool,
    pub message: Option<Seq<char>>,
}

impl DeepView for GenericResponse {
    type V = GenericResponseView;

    open spec fn deep_view(&self) -> GenericResponseView {
        GenericResponseView { error: self.error, message: self.message.deep_view() }
    }
}

impl View for GenericResponse {
    type V = GenericResponseView;

    open spec fn view(&self) -> GenericResponseView {
        self.deep_view()
    }
}

/// A user has been signed in: the cookie to set, and the answer to the request.
#[derive(Clone, Debug, PartialEq, Eq)]
pub struct SignedIn {
    pub cookie: SessionCookie,
    pub response: GenericResponse,
}

/// What a [`SignedIn`] is to a contract.
pub struct SignedInView {
    pub cookie: SessionCookieView,
    pub response: GenericResponseView,
}

impl DeepView for SignedIn {
    type V = SignedInView;

    open spec fn deep_view(&self) -> SignedInView {
        SignedInView { cookie: self.cookie@, response: self.response@ }
    }
}

impl View for SignedIn {
    type V = SignedInView;

    open spec fn view(&self) -> SignedInView {
        self.deep_view()
    }
}

/// The name and the password that a client sends to sign in or to register.
#[derive(Clone, Debug, PartialEq, Eq)]
pub struct LoginInfo {
    pub user: String,
    pub password: String,
}

/// What a [`LoginInfo`] is to a contract.
pub struct LoginInfoView {
    pub user: Seq<char>,
    pub password: Seq<char>,
}

impl DeepView for LoginInfo {
    type V = LoginInfoView;

    open spec fn deep_view(&self) -> LoginInfoView {
        LoginInfoView { user: self.user@, password: self.password@ }
    }
}

impl View for LoginInfo {
    type V = LoginInfoView;

    open spec fn view(&self) -> LoginInfoView {
        self.deep_view()
    }
}

/// The cookie that signs in the user `id`.
pub open spec fn spec_auth_cookie(id: i32) -> SessionCookieView {
    SessionCookieView { name: "auth"@, value: decimal_digits(id as int) }
}

/// The cookie that signs in the user `id`.
pub fn auth_cookie(id: i32) -> (cookie: SessionCookie)
    ensures
        cookie@ == spec_auth_cookie(id),
{
    SessionCookie { name: AUTH_COOKIE, value: decimal(id) }
}

/// How far the search for the user behind a request has come.
#[derive(Debug, PartialEq, Eq)]
pub enum FromRequest {
    /// Nothing has been asked yet. `store_ready` says whether the store can be reached, and
    /// `auth_cookie` is what the client's cookie holds, if the client sent one.
    Requested { store_ready: bool, auth_cookie: Option<String> },
    /// The store is looking for the user.
    Finding,
}

/// What a [`FromRequest`] is to a contract.
pub enum FromRequestView {
    Requested { store_ready: bool, auth_cookie: Option<Seq<char>> },
    Finding,
}

impl DeepView for FromRequest {
    type V = FromRequestView;

    open spec fn deep_view(&self) -> FromRequestView {
        match self {
            FromRequest::Requested { store_ready, auth_cookie } => FromRequestView::Requested {
                store_ready: *store_ready,
                auth_cookie: auth_cookie.deep_view(),
            },
            FromRequest::Finding => FromRequestView::Finding,
        }
    }
}

impl View for FromRequest {
    type V = FromRequestView;

    open spec fn view(&self) -> FromRequestView {
        self.deep_view()
    }
}

/// The step that [`from_request`] takes.
pub open spec fn spec_from_request(state: FromRequestView, reply: Option<ReplyView>) -> StepView<
    FromRequestView,
    UserView,
    RefusalView,
> {
    match state {
        FromRequestView::Requested { store_ready, auth_cookie } => if !store_ready {
            StepView::Done(
                Err(
                    RefusalView {
                        status: Status::ServiceUnavailable,
                        message: "An internal error occured."@,
                    },
                ),
            )
        } else {
            match auth_cookie {
                Some(value) => match spec_parse_decimal(value) {
                    Some(id) => StepView::Ask(FromRequestView::Finding, QueryView::UserById { id }),
                    None => StepView::Done(
                        Err(
                            RefusalView {
                                status: Status::InternalServerError,
                                message: "Auth cookie was not an int"@,
                            },
                        ),
                    ),
                },
                None => StepView::Done(
                    Err(RefusalView { status: Status::Unauthorized, message: "No cookies?"@ }),
                ),
            }
        },
        FromRequestView::Finding => match reply {
            Some(ReplyView::User(user)) => StepView::Done(Ok(user)),
            _ => StepView::Done(
                Err(RefusalView { status: Status::Unauthorized, message: "User not found"@ }),
            ),
        },
    }
}

/// Finds the user behind a request: the one whose id the client's cookie holds.
pub fn from_request(state: FromRequest, reply: Option<Reply>) -> (step: Step<
    FromRequest,
    User,
    Refusal,
>)
    ensures
        step@ == spec_from_request(state@, reply.deep_view()),
{
    match state {
        FromRequest::Requested { store_ready, auth_cookie } => if !store_ready {
            Step::Done(
                Err(
                    Refusal {
                        status: Status::ServiceUnavailable,
                        message: "An internal error occured.",
                    },
                ),
            )
        } else {
            match auth_cookie {
                Some(value) => match parse_decimal(value.as_str()) {
                    Some(id) => Step::Ask(FromRequest::Finding, Query::UserById { id }),
                    None => Step::Done(
                        Err(
                            Refusal {
                                status: Status::InternalServerError,
                                message: "Auth cookie was not an int",
                            },
                        ),
                    ),
                },
                None => Step::Done(
                    Err(Refusal { status: Status::Unauthorized, message: "No cookies?" }),
                ),
            }
        },
        FromRequest::Finding => match reply {
            Some(Reply::User(user)) => Step::Done(Ok(user)),
            _ => Step::Done(
                Err(Refusal { status: Status::Unauthorized, message: "User not found" }),
            ),
        },
    }
}

/// The parameters of the password hash that `PasswordHash::new` of the crate
/// `password-hash` reads from `stored`, each with its name and its value as text, in the
/// order in which the text holds them; none where no hash can be read.
pub uninterp spec fn phc_params(stored: Seq<char>) -> Option<Seq<(Seq<char>, Seq<char>)>>;

/// Whether `PasswordHash::new` reads a hash from `stored` and `verify_password` of
/// `Argon2::default()` accepts `password` for that hash.
pub uninterp spec fn password_matches(password: Seq<char>, stored: Seq<char>) -> bool;

/// The PHC string that `hash_password` of `Argon2::default()` makes of `password` and
/// the salt that `SaltString::from_b64` reads from `salt`, where both succeed.
pub uninterp spec fn password_hash(password: Seq<char>, salt: Seq<char>) -> Option<Seq<char>>;

/// The most characters that a value of the parameter `p` may have for the hash to be
/// checked. The degree of parallelism that Argon2 takes has at most eight digits.
pub const MAX_PARALLELISM_DIGITS: usize = 8;

/// No parameter named `p` has a value of more than eight characters. A hash with such a
/// value is never accepted, and Argon2 must not be run on it: it multiplies the degree of
/// parallelism by eight in 32 bits before it looks at its size.
pub open spec fn spec_parallelism_bounded(params: Seq<(Seq<char>, Seq<char>)>) -> bool {
    forall|i: int|
        0 <= i < params.len() && (#[trigger] params[i]).0 == seq!['p'] ==> params[i].1.len()
            <= MAX_PARALLELISM_DIGITS
}

/// Calls `PasswordHash::new` on the text and hands back the parameters of the hash, as
/// `ParamsString::iter` gives them, each name and each value as text.
#[verifier::external_body]
fn phc_params_of(stored: &str) -> (params: Option<Vec<(String, String)>>)
    ensures
        params.deep_view() == phc_params(stored@),
{
    match PasswordHash::new(stored) {
        Ok(hash) => Some(
            hash.params
                .iter()
                .map(|(name, value)| (name.as_str().to_owned(), value.as_str().to_owned()))
                .collect(),
        ),
        Err(_) => None,
    }
}

/// Calls `verify_password` of `Argon2::default()` on the bytes of the password and the
/// hash that `PasswordHash::new` reads from `stored`, and says whether it accepted the
/// password; a text from which no hash can be read accepts none.
///
/// The call builds Argon2's parameters from those of the hash, and that overflows where
/// a parameter `p` is 2^29 or more. Such a hash is left out here.
#[verifier::external_body]
fn password_verifies(password: &str, stored: &str) -> (accepted: bool)
    requires
        phc_params(stored@) matches Some(params) ==> spec_parallelism_bounded(params),
    ensures
        accepted == password_matches(password@, stored@),
{
    match PasswordHash::new(stored) {
        Ok(hash) => Argon2::default().verify_password(password.as_bytes(), &hash).is_ok(),
        Err(_) => false,
    }
}

/// Calls `SaltString::generate` on the system's random number generator and hands the
/// salt back as text. Nothing is claimed of the salt.
#[verifier::external_body]
fn fresh_salt() -> (salt: String) {
    SaltString::generate(&mut OsRng).as_str().to_owned()
}

/// Calls `hash_password` of `Argon2::default()` on the bytes of the password and the salt
/// read from `salt`, and hands the hash back as a PHC string.
#[verifier::external_body]
fn hash_password(password: &str, salt: &str) -> (hashed: Option<String>)
    ensures
        hashed.deep_view() == password_hash(password@, salt@),
{
    match SaltString::from_b64(salt) {
        Ok(salt) => match Argon2::default().hash_password(password.as_bytes(), &salt) {
            Ok(hash) => Some(hash.to_string()),
            Err(_) => None,
        },
        Err(_) => None,
    }
}

/// What a check of a password against a stored hash comes to.
#[derive(Clone, Copy, Debug, PartialEq, Eq)]
pub enum PasswordVerdict {
    /// The stored hash cannot be read.
    Malformed,
    /// The password is not the one that was hashed.
    Rejected,
    /// The password is the one that was hashed.
    Accepted,
}

/// What the check of `password` against `stored` comes to. A hash whose degree of
/// parallelism is written with more than eight characters accepts no password.
pub open spec fn spec_check_password(password: Seq<char>, stored: Seq<char>) -> PasswordVerdict {
    match phc_params(stored) {
        None => PasswordVerdict::Malformed,
        Some(params) => if spec_parallelism_bounded(params) && password_matches(
            password,
            stored,
        ) {
            PasswordVerdict::Accepted
        } else {
            PasswordVerdict::Rejected
        },
    }
}

/// Whether no parameter named `p` has a value of more than eight characters.
pub fn parallelism_bounded(params: &Vec<(String, String)>) -> (bounded: bool)
    ensures
        bounded == spec_parallelism_bounded(params.deep_view()),
{
    let mut i: usize = 0;
    while i < params.len()
        invariant
            i <= params.len(),
            forall|k: int|
                0 <= k < i && (#[trigger] params.deep_view()[k]).0 == seq!['p']
                    ==> params.deep_view()[k].1.len() <= MAX_PARALLELISM_DIGITS,
        decreases params.len() - i,
    {
        let name = params[i].0.as_str();
        let value = params[i].1.as_str();
        assert(params.deep_view()[i as int] == (name@, value@));
        if name.unicode_len() == 1 && name.get_char(0) == 'p' {
            assert(name@ =~= seq!['p']);
            if value.unicode_len() > MAX_PARALLELISM_DIGITS {
                return false;
            }
        }
        i = i + 1;
    }
    true
}

/// Checks a password against a stored hash.
pub fn check_password(password: &str, stored: &str) -> (verdict: PasswordVerdict)
    ensures
        verdict == spec_check_password(password@, stored@),
{
    match phc_params_of(stored) {
        None => PasswordVerdict::Malformed,
        Some(params) => if !parallelism_bounded(&params) {
            PasswordVerdict::Rejected
        } else if password_verifies(password, stored) {
            PasswordVerdict::Accepted
        } else {
            PasswordVerdict::Rejected
        },
    }
}

/// How far a request to sign in has come.
#[derive(Debug, PartialEq, Eq)]
pub enum Login {
    /// Nothing has been asked yet.
    Requested { info: LoginInfo },
    /// The store is looking for the user of that name.
    Finding { password: String },
}

/// What a [`Login`] is to a contract.
pub enum LoginView {
    Requested { info: LoginInfoView },
    Finding { password: Seq<char> },
}

impl DeepView for Login {
    type V = LoginView;

    open spec fn deep_view(&self) -> LoginView {
        match self {
            Login::Requested { info } => LoginView::Requested { info: info@ },
            Login::Finding { password } => LoginView::Finding { password: password@ },
        }
    }
}

impl View for Login {
    type V = LoginView;

    open spec fn view(&self) -> LoginView {
        self.deep_view()
    }
}

/// How a request to sign in ends once the user has been found and the password checked.
pub open spec fn spec_login_checked(user: UserView, verdict: PasswordVerdict) -> Result<
    SignedInView,
    RefusalView,
> {
    match verdict {
        PasswordVerdict::Malformed => Err(
            RefusalView {
                status: Status::InternalServerError,
                message: "An internal error occured"@,
            },
        ),
        PasswordVerdict::Rejected => Err(
            RefusalView { status: Status::Unauthorized, message: "Password incorrect"@ },
        ),
        PasswordVerdict::Accepted => Ok(
            SignedInView {
                cookie: spec_auth_cookie(user.id),
                response: GenericResponseView { error: false, message: Some("Logged in"@) },
            },
        ),
    }
}

/// The step that [`login`] takes.
pub open spec fn spec_login(state: LoginView, reply: Option<ReplyView>) -> StepView<
    LoginView,
    SignedInView,
    RefusalView,
> {
    match state {
        LoginView::Requested { info } => StepView::Ask(
            LoginView::Finding { password: info.password },
            QueryView::UserByName { username: info.user },
        ),
        LoginView::Finding { password } => match reply {
            Some(ReplyView::User(user)) => StepView::Done(
                spec_login_checked(user, spec_check_password(password, user.password)),
            ),
            _ => StepView::Done(
                Err(RefusalView { status: Status::Unauthorized, message: "Username incorrect"@ }),
            ),
        },
    }
}

/// Ends a request to sign in, given the user that was found and what the check of the
/// password came to: only an accepted password signs the user in.
pub fn login_checked(user: &User, verdict: PasswordVerdict) -> (end: Result<SignedIn, Refusal>)
    ensures
        match end {
            Ok(signed_in) => spec_login_checked(user@, verdict) == Ok::<
                SignedInView,
                RefusalView,
            >(signed_in@),
            Err(refusal) => spec_login_checked(user@, verdict) == Err::<
                SignedInView,
                RefusalView,
            >(refusal@),
        },
{
    match verdict {
        PasswordVerdict::Malformed => Err(
            Refusal { status: Status::InternalServerError, message: "An internal error occured" },
        ),
        PasswordVerdict::Rejected => Err(
            Refusal { status: Status::Unauthorized, message: "Password incorrect" },
        ),
        PasswordVerdict::Accepted => Ok(
            SignedIn {
                cookie: auth_cookie(user.id),
                response: GenericResponse { error: false, message: Some("Logged in") },
            },
        ),
    }
}

/// Signs a user in: the user is looked up by name, the password is checked against the
/// stored hash, and the client gets the cookie with the user's id.
pub fn login(state: Login, reply: Option<Reply>) -> (step: Step<Login, SignedIn, Refusal>)
    ensures
        step@ == spec_login(state@, reply.deep_view()),
{
    match state {
        Login::Requested { info } => Step::Ask(
            Login::Finding { password: info.password },
            Query::UserByName { username: info.user },
        ),
        Login::Finding { password } => match reply {
            Some(Reply::User(user)) => {
                let verdict = check_password(password.as_str(), user.password.as_str());
                Step::Done(login_checked(&user, verdict))
            },
            _ => Step::Done(
                Err(Refusal { status: Status::Unauthorized, message: "Username incorrect" }),
            ),
        },
    }
}

/// How far a request to register has come.
#[derive(Debug, PartialEq, Eq)]
pub enum Register {
    /// Nothing has been asked yet.
    Requested { info: LoginInfo },
    /// The store is counting the users of that name.
    Counting { info: LoginInfo },
    /// The store is taking the user.
    Inserting,
}

/// What a [`Register`] is to a contract.
pub enum RegisterView {
    Requested { info: LoginInfoView },
    Counting { info: LoginInfoView },
    Inserting,
}

impl DeepView for Register {
    type V = RegisterView;

    open spec fn deep_view(&self) -> RegisterView {
        match self {
            Register::Requested { info } => RegisterView::Requested { info: info@ },
            Register::Counting { info } => RegisterView::Counting { info: info@ },
            Register::Inserting => RegisterView::Inserting,
        }
    }
}

impl View for Register {
    type V = RegisterView;

    open spec fn view(&self) -> RegisterView {
        self.deep_view()
    }
}

/// The words for a failure that is not the client's.
pub open spec fn spec_internal_error() -> RefusalView {
    RefusalView { status: Status::InternalServerError, message: "An internal error occured"@ }
}

/// Whether a step of a registration hashes the password: the store has counted no user of
/// the name, and the password is long enough.
pub open spec fn spec_needs_hash(state: RegisterView, reply: Option<ReplyView>) -> bool {
    &&& state matches RegisterView::Counting { info }
    &&& reply matches Some(ReplyView::Count(existing))
    &&& existing <= 0
    &&& vstd::utf8::encode_utf8(info.password).len() >= MIN_PASSWORD_LEN
}

/// The step that a registration takes, where `hashed` is what the hashing of the
/// password gave; it is looked at only where [`spec_needs_hash`] holds.
pub open spec fn spec_register_hashed(
    state: RegisterView,
    reply: Option<ReplyView>,
    hashed: Option<Seq<char>>,
) -> StepView<RegisterView, SignedInView, RefusalView> {
    match state {
        RegisterView::Requested { info } => StepView::Ask(
            RegisterView::Counting { info },
            QueryView::CountUsersNamed { username: info.user },
        ),
        RegisterView::Counting { info } => match reply {
            Some(ReplyView::Count(existing)) => if existing > 0 {
                StepView::Done(
                    Err(
                        RefusalView {
                            status: Status::BadRequest,
                            message: "Username not available"@,
                        },
                    ),
                )
            } else if vstd::utf8::encode_utf8(info.password).len() < MIN_PASSWORD_LEN {
                StepView::Done(
                    Err(
                        RefusalView {
                            status: Status::BadRequest,
                            message: "Password must be at least 8 characters"@,
                        },
                    ),
                )
            } else {
                match hashed {
                    Some(password) => StepView::Ask(
                        RegisterView::Inserting,
                        QueryView::InsertUser(NewUserView { username: info.user, password }),
                    ),
                    None => StepView::Done(Err(spec_internal_error())),
                }
            },
            _ => StepView::Done(Err(spec_internal_error())),
        },
        RegisterView::Inserting => match reply {
            Some(ReplyView::Inserted(id)) => StepView::Done(
                Ok(
                    SignedInView {
                        cookie: spec_auth_cookie(id),
                        response: GenericResponseView { error: false, message: None },
                    },
                ),
            ),
            _ => StepView::Done(Err(spec_internal_error())),
        },
    }
}

/// The step that [`register`] takes where the salt that it draws is `salt`.
pub open spec fn spec_register(
    state: RegisterView,
    reply: Option<ReplyView>,
    salt: Seq<char>,
) -> StepView<RegisterView, SignedInView, RefusalView> {
    match state {
        RegisterView::Counting { info } => spec_register_hashed(
            state,
            reply,
            password_hash(info.password, salt),
        ),
        _ => spec_register_hashed(state, reply, None),
    }
}

/// How many bytes a text takes.
fn byte_len(text: &str) -> (len: usize)
    ensures
        len == vstd::utf8::encode_utf8(text@).len(),
{
    text.as_bytes().len()
}

/// Whether this step of a registration hashes the password.
pub fn needs_hash(state: &Register, reply: &Option<Reply>) -> (needed: bool)
    ensures
        needed == spec_needs_hash(state@, reply.deep_view()),
{
    match state {
        Register::Counting { info } => match reply {
            Some(Reply::Count(existing)) => *existing <= 0 && byte_len(info.password.as_str()) >= MIN_PASSWORD_LEN,
            _ => false,
        },
        _ => false,
    }
}

/// Takes a registration one step further, with `hashed` as what the hashing of the
/// password gave. A name that is taken and a password of fewer than eight bytes are turned
/// down before the hash is looked at.
pub fn register_hashed(state: Register, reply: Option<Reply>, hashed: Option<String>) -> (step:
    Step<Register, SignedIn, Refusal>)
    ensures
        step@ == spec_register_hashed(state@, reply.deep_view(), hashed.deep_view()),
{
    match state {
        Register::Requested { info } => {
            let username = info.user.clone();
            Step::Ask(Register::Counting { info }, Query::CountUsersNamed { username })
        },
        Register::Counting { info } => match reply {
            Some(Reply::Count(existing)) => if existing > 0 {
                Step::Done(
                    Err(Refusal { status: Status::BadRequest, message: "Username not available" }),
                )
            } else if byte_len(info.password.as_str()) < MIN_PASSWORD_LEN {
                Step::Done(
                    Err(
                        Refusal {
                            status: Status::BadRequest,
                            message: "Password must be at least 8 characters",
                        },
                    ),
                )
            } else {
                match hashed {
                    Some(password) => Step::Ask(
                        Register::Inserting,
                        Query::InsertUser(NewUser { username: info.user, password }),
                    ),
                    None => Step::Done(Err(internal_error())),
                }
            },
            _ => Step::Done(Err(internal_error())),
        },
        Register::Inserting => match reply {
            Some(Reply::Inserted(id)) => Step::Done(
                Ok(
                    SignedIn {
                        cookie: auth_cookie(id),
                        response: GenericResponse { error: false, message: None },
                    },
                ),
            ),
            _ => Step::Done(Err(internal_error())),
        },
    }
}

/// The words for a failure that is not the client's.
fn internal_error() -> (refusal: Refusal)
    ensures
        refusal@ == spec_internal_error(),
{
    Refusal { status: Status::InternalServerError, message: "An internal error occured" }
}

/// Registers a user and signs them in: the name must be free and the password at least
/// eight bytes long; the password is then hashed with a salt drawn at random, and the user is
/// stored with the hash. Which salt is drawn is not known beforehand: the step is the one
/// that [`spec_register`] gives for some salt.
pub fn register(state: Register, reply: Option<Reply>) -> (step: Step<Register, SignedIn, Refusal>)
    ensures
        exists|salt: Seq<char>| step@ == #[trigger] spec_register(state@, reply.deep_view(), salt),
{
    if needs_hash(&state, &reply) {
        let salt = fresh_salt();
        let hashed = match &state {
            Register::Counting { info } => hash_password(info.password.as_str(), salt.as_str()),
            _ => None,
        };
        let step = register_hashed(state, reply, hashed);
        assert(step@ == spec_register(state@, reply.deep_view(), salt@));
        step
    } else {
        let step = register_hashed(state, reply, None);
        assert(step@ == spec_register(state@, reply.deep_view(), Seq::empty()));
        step
    }
}

/// What a client is shown of the user that it is signed in as.
#[derive(Clone, Debug, PartialEq, Eq)]
pub struct UserInfo {
    pub name: String,
}

/// What a [`UserInfo`] is to a contract.
pub struct UserInfoView {
    pub name: Seq<char>,
}

impl DeepView for UserInfo {
    type V = UserInfoView;

    open spec fn deep_view(&self) -> UserInfoView {
        UserInfoView { name: self.name@ }
    }
}

impl View for UserInfo {
    type V = UserInfoView;

    open spec fn view(&self) -> UserInfoView {
        self.deep_view()
    }
}

/// Tells a client who it is signed in as: the user's name.
pub fn auth(user: User) -> (info: UserInfo)
    ensures
        info@ == (UserInfoView { name: user@.username }),
{
    UserInfo { name: user.username }
}

/// Shows a signed-in client the whole of its user's row.
pub fn secure(user: User) -> (shown: User)
    ensures
        shown == user,
{
    user
}

/// A user has been signed out: the cookie to take away, and the answer to the request.
#[derive(Clone, Debug, PartialEq, Eq)]
pub struct SignedOut {
    pub forget: &'static str,
    pub body: String,
}

/// What a [`SignedOut`] is to a contract.
pub struct SignedOutView {
    pub forget: Seq<char>,
    pub body: Seq<char>,
}

impl DeepView for SignedOut {
    type V = SignedOutView;

    open spec fn deep_view(&self) -> SignedOutView {
        SignedOutView { forget: self.forget@, body: self.body@ }
    }
}

impl View for SignedOut {
    type V = SignedOutView;

    open spec fn view(&self) -> SignedOutView {
        self.deep_view()
    }
}

/// Signs the client out: the cookie with the user's id is taken away.
pub fn logout() -> (out: SignedOut)
    ensures
        out@ == (SignedOutView { forget: "auth"@, body: "Goodbye"@ }),
{
    SignedOut { forget: AUTH_COOKIE, body: String::from_str("Goodbye") }
}

} // verus!
