//! The answers of the account endpoints (login, registration, verification,
//! profile, rooms), given what their database steps gave.
use vstd::prelude::*;
use vstd::utf8::encode_utf8;
use crate::auth::{
    check_login, generate_token, is_token, login_refusal, prepare_registration, prepared_account, user_info, LoginResponse, ProfileResponse, RegisterRequest,
    RegisterResponse, RoomInfo, RoomsResponse, SimpleResponse, UserInfo, VerifyResponse,
};
use crate::db::{NewUser, User};
use crate::manager;

verus! {

/// What looking a record up in the database gave.
#[derive(Debug, Clone)]
pub enum Lookup<T> {
    Found(T),
    Missing,
    Failed,
}

/// `info` is what a client learns about `user`.
pub open spec fn info_of(info: UserInfo, user: User) -> bool {
    &&& info.id == user.id
    &&& info.email@ == user.email@
    &&& info.display_name@ == user.display_name@
    &&& info.avatar_id == user.avatar_id
    &&& info.is_admin == (if user.is_admin { Some(true) } else { None::<bool> })
}

// ========== LOGIN ==========

/// `r` refuses a login with `msg`.
pub open spec fn login_failed(r: LoginResponse, msg: Seq<char>) -> bool {
    &&& !r.ok
    &&& r.token is None
    &&& r.user is None
    &&& r.error matches Some(e) && e@ == msg
}

fn login_failure(msg: &str) -> (r: LoginResponse)
    ensures
        login_failed(r, msg@),
{
    LoginResponse { ok: false, token: None, user: None, error: Some(msg.to_owned()) }
}

/// A login with `password`, once the account with the email was looked up:
/// the user when the login may go on, else the answer.
pub fn login_lookup(lookup: Lookup<User>, password: &str) -> (r: Result<User, LoginResponse>)
    ensures
        match lookup {
            Lookup::Missing => r matches Err(resp) && login_failed(resp, "Invalid email or password"@),
            Lookup::Failed => r matches Err(resp) && login_failed(resp, "Database error"@),
            Lookup::Found(u) => match login_refusal(u, password@) {
                Some(msg) => r matches Err(resp) && login_failed(resp, msg),
                None => r == Ok::<User, LoginResponse>(u),
            },
        },
{
    match lookup {
        Lookup::Missing => Err(login_failure("Invalid email or password")),
        Lookup::Failed => Err(login_failure("Database error")),
        Lookup::Found(u) => match check_login(&u, password) {
            Ok(()) => Ok(u),
            Err(msg) => Err(login_failure(msg)),
        },
    }
}

/// The answer to a successful login of `user` with the session token `token`;
/// `None` when the token could not be stored.
pub fn login_answer(user: &User, token: Option<String>) -> (r: LoginResponse)
    ensures
        match token {
            None => login_failed(r, "Failed to generate token"@),
            Some(t) => {
                &&& r.ok
                &&& r.token matches Some(x) && x@ == t@
                &&& r.user matches Some(info) && info_of(info, *user)
                &&& r.error is None
            },
        },
{
    match token {
        None => login_failure("Failed to generate token"),
        Some(t) => LoginResponse { ok: true, token: Some(t), user: Some(user_info(user)), error: None },
    }
}

// ========== REGISTRATION ==========

/// `r` refuses a registration with status `status` and the error `msg`.
pub open spec fn register_refused(r: (u16, RegisterResponse), status: u16, msg: Seq<char>) -> bool {
    &&& r.0 == status
    &&& !r.1.ok
    &&& r.1.message is None
    &&& r.1.user is None
    &&& r.1.errors matches Some(es) && es@.len() == 1 && es@[0]@ == msg
}

fn register_failure(status: u16, msg: &str) -> (r: (u16, RegisterResponse))
    ensures
        register_refused(r, status, msg@),
{
    let mut errors: Vec<String> = Vec::new();
    errors.push(msg.to_owned());
    (status, RegisterResponse { ok: false, message: None, errors: Some(errors), user: None })
}

/// A registration once it was checked whether an account has the email
/// (`Found`): the answer when it ends there.
pub fn register_check(taken: Lookup<()>) -> (r: Option<(u16, RegisterResponse)>)
    ensures
        match taken {
            Lookup::Found(_) => r matches Some(a) && register_refused(a, 409, "Email already registered"@),
            Lookup::Failed => r matches Some(a) && register_refused(a, 500, "Database error"@),
            Lookup::Missing => r is None,
        },
{
    match taken {
        Lookup::Found(_) => Some(register_failure(409, "Email already registered")),
        Lookup::Failed => Some(register_failure(500, "Database error")),
        Lookup::Missing => None,
    }
}

/// The account a registration creates (see `prepare_registration`); the answer
/// when the password cannot be hashed.
pub fn register_prepare(req: &RegisterRequest) -> (r: Result<NewUser, (u16, RegisterResponse)>)
    ensures
        r matches Err(a) ==> register_refused(a, 500, "Failed to hash password"@),
        r matches Ok(u) ==> prepared_account(u, *req),
        encode_utf8(req.password@).len() <= 0xFFFF_FFFF ==> r is Ok,
{
    match prepare_registration(req) {
        Some(u) => Ok(u),
        None => Err(register_failure(500, "Failed to hash password")),
    }
}

/// The new account's id once it was created (`None` when that failed); the
/// answer when it failed.
pub fn register_created(created: Option<i64>) -> (r: Result<i64, (u16, RegisterResponse)>)
    ensures
        match created {
            Some(id) => r == Ok::<i64, (u16, RegisterResponse)>(id),
            None => r matches Err(a) && register_refused(a, 500, "Failed to create account"@),
        },
{
    match created {
        Some(id) => Ok(id),
        None => Err(register_failure(500, "Failed to create account")),
    }
}

/// `r` is the answer to a registration of `account` (made `user_id`) when email
/// is off: the user signed in when its session token was stored
/// (`session_stored`), else told to log in.
pub open spec fn auto_login_answer(r: (u16, RegisterResponse), user_id: i64, account: NewUser, session_stored: bool) -> bool {
    &&& r.0 == 200
    &&& r.1.ok
    &&& r.1.errors is None
    &&& !session_stored ==> r.1.user is None && (r.1.message matches Some(m)
        && m@ == "Registration successful! You can now log in."@)
    &&& session_stored ==> r.1.message is None && (r.1.user matches Some(info) && {
        &&& info.id == user_id
        &&& info.email@ == account.email@
        &&& info.display_name@ == account.display_name@
        &&& info.avatar_id == account.avatar_id
        &&& info.is_admin is None
    })
}

/// `r` is the answer to a registration when email is on.
pub open spec fn email_sent_answer(r: (u16, RegisterResponse)) -> bool {
    &&& r.0 == 200
    &&& r.1.ok
    &&& r.1.errors is None
    &&& r.1.user is None
    &&& r.1.message matches Some(m) && m@ == "Registration successful! Please check your email to verify your account."@
}

/// The answer to a registration when email is off: the account is verified at
/// once and signed in when its session token could be stored (`session_stored`),
/// else the user is told to log in.
pub fn register_auto_login(user_id: i64, account: &NewUser, session_stored: bool) -> (r: (u16, RegisterResponse))
    ensures
        auto_login_answer(r, user_id, *account, session_stored),
{
    if !session_stored {
        return (
            200,
            RegisterResponse {
                ok: true,
                message: Some("Registration successful! You can now log in.".to_owned()),
                errors: None,
                user: None,
            },
        );
    }
    let info = UserInfo {
        id: user_id,
        email: account.email.clone(),
        display_name: account.display_name.clone(),
        avatar_id: account.avatar_id,
        is_admin: None,
    };
    (200, RegisterResponse { ok: true, message: None, errors: None, user: Some(info) })
}

/// The answer to a registration when email is on (the verification email was
/// sent, or at least tried).
pub fn register_email_sent() -> (r: (u16, RegisterResponse))
    ensures
        email_sent_answer(r),
{
    (
        200,
        RegisterResponse {
            ok: true,
            message: Some("Registration successful! Please check your email to verify your account.".to_owned()),
            errors: None,
            user: None,
        },
    )
}

// ========== AFTER THE ACCOUNT IS CREATED ==========

/// What a registration does once its account was created.
#[derive(Debug, Clone)]
pub struct RegisterPlan {
    /// The account to mark verified (email is off).
    pub verify_account: Option<i64>,
    /// The account and the session token to store for it (email is off).
    pub session: Option<(i64, String)>,
    /// The address and the verification token of the verification email
    /// (email is on).
    pub verification_email: Option<(String, String)>,
}

/// `plan` is what a registration does once `account` was created as `user_id`:
/// with email on, the verification email goes out with the account's
/// verification token; with email off, the account is verified at once and a
/// fresh session token is stored for it.
pub open spec fn planned(plan: RegisterPlan, user_id: i64, account: NewUser, email_enabled: bool) -> bool {
    if email_enabled {
        &&& plan.verify_account is None
        &&& plan.session is None
        &&& plan.verification_email matches Some((to, t)) && to@ == account.email@ && t@ == account.verification_token@
    } else {
        &&& plan.verify_account == Some(user_id)
        &&& plan.verification_email is None
        &&& plan.session matches Some((id, t)) && id == user_id && is_token(t@)
    }
}

/// What a registration does once `account` was created as `user_id`.
pub fn register_plan(user_id: i64, account: &NewUser, email_enabled: bool) -> (r: RegisterPlan)
    ensures
        planned(r, user_id, *account, email_enabled),
{
    if email_enabled {
        RegisterPlan {
            verify_account: None,
            session: None,
            verification_email: Some((account.email.clone(), account.verification_token.clone())),
        }
    } else {
        RegisterPlan { verify_account: Some(user_id), session: Some((user_id, generate_token())), verification_email: None }
    }
}

/// `r` is the answer to a registration carried out by `plan`, with the session
/// token that its cookie carries: with a session stored (`session_stored`), the
/// user is signed in with the stored token; otherwise no cookie is set.
pub open spec fn replied(
    r: (u16, RegisterResponse, Option<String>),
    plan: RegisterPlan,
    user_id: i64,
    account: NewUser,
    session_stored: bool,
) -> bool {
    match plan.session {
        Some((_, t)) => {
            &&& auto_login_answer((r.0, r.1), user_id, account, session_stored)
            &&& if session_stored { r.2 == Some(t) } else { r.2 is None }
        },
        None => email_sent_answer((r.0, r.1)) && r.2 is None,
    }
}

/// The answer to a registration carried out by `plan`, and the session token to
/// set as the auth cookie, if any.
pub fn register_reply(plan: &RegisterPlan, user_id: i64, account: &NewUser, session_stored: bool) -> (r: (
    u16,
    RegisterResponse,
    Option<String>,
))
    ensures
        replied(r, *plan, user_id, *account, session_stored),
{
    match &plan.session {
        Some((_, t)) => {
            let (status, resp) = register_auto_login(user_id, account, session_stored);
            let cookie = if session_stored { Some(t.clone()) } else { None };
            (status, resp, cookie)
        },
        None => {
            let (status, resp) = register_email_sent();
            (status, resp, None)
        },
    }
}

// ========== TOKENS AND VERIFICATION ==========

/// The answer to a token check: `None` when the request carried no bearer
/// token, else what looking the token's user up gave.
pub fn verify_token_answer(lookup: Option<Lookup<User>>) -> (r: (u16, VerifyResponse))
    ensures
        match lookup {
            None => r.0 == 401 && !r.1.ok && r.1.user is None && (r.1.error matches Some(e) && e@ == "No token provided"@),
            Some(Lookup::Found(u)) => r.0 == 200 && r.1.ok && r.1.error is None && (r.1.user matches Some(info)
                && info_of(info, u)),
            Some(Lookup::Missing) => r.0 == 401 && !r.1.ok && r.1.user is None && (r.1.error matches Some(e)
                && e@ == "Invalid token"@),
            Some(Lookup::Failed) => r.0 == 500 && !r.1.ok && r.1.user is None && (r.1.error matches Some(e)
                && e@ == "Database error"@),
        },
{
    match lookup {
        None => (401, VerifyResponse { ok: false, user: None, error: Some("No token provided".to_owned()) }),
        Some(Lookup::Found(u)) => (200, VerifyResponse { ok: true, user: Some(user_info(&u)), error: None }),
        Some(Lookup::Missing) => (401, VerifyResponse { ok: false, user: None, error: Some("Invalid token".to_owned()) }),
        Some(Lookup::Failed) => (500, VerifyResponse { ok: false, user: None, error: Some("Database error".to_owned()) }),
    }
}

/// The answer to `me`: the user of the request's auth token, if any; a
/// missing or unknown token is no error.
pub fn me_answer(lookup: Option<Lookup<User>>) -> (r: VerifyResponse)
    ensures
        r.error is None,
        match lookup {
            Some(Lookup::Found(u)) => r.ok && (r.user matches Some(info) && info_of(info, u)),
            _ => !r.ok && r.user is None,
        },
{
    match lookup {
        Some(Lookup::Found(u)) => VerifyResponse { ok: true, user: Some(user_info(&u)), error: None },
        _ => VerifyResponse { ok: false, user: None, error: None },
    }
}

/// `r` is a plain refusal with status `status` and error `msg`.
pub open spec fn simple_refused(r: (u16, SimpleResponse), status: u16, msg: Seq<char>) -> bool {
    &&& r.0 == status
    &&& !r.1.ok
    &&& r.1.message is None
    &&& r.1.error matches Some(e) && e@ == msg
}

fn simple_failure(status: u16, msg: &str) -> (r: (u16, SimpleResponse))
    ensures
        simple_refused(r, status, msg@),
{
    (status, SimpleResponse { ok: false, message: None, error: Some(msg.to_owned()) })
}

/// An email verification link, once its account was looked up: the user
/// whose link it is and whose link has not expired at `now_secs`, else the
/// answer.
pub fn verification_link(lookup: Lookup<User>, now_secs: i64) -> (r: Result<User, (u16, SimpleResponse)>)
    ensures
        match lookup {
            Lookup::Missing => r matches Err(a) && simple_refused(a, 400, "Invalid or expired verification link"@),
            Lookup::Failed => r matches Err(a) && simple_refused(a, 500, "Database error"@),
            Lookup::Found(u) => if u.verification_token_expires matches Some(x) && x < now_secs {
                r matches Err(a) && simple_refused(a, 400, "Verification link has expired. Please register again."@)
            } else {
                r == Ok::<User, (u16, SimpleResponse)>(u)
            },
        },
{
    match lookup {
        Lookup::Missing => Err(simple_failure(400, "Invalid or expired verification link")),
        Lookup::Failed => Err(simple_failure(500, "Database error")),
        Lookup::Found(u) => {
            let expired = match u.verification_token_expires {
                Some(x) => x < now_secs,
                None => false,
            };
            if expired {
                Err(simple_failure(400, "Verification link has expired. Please register again."))
            } else {
                Ok(u)
            }
        },
    }
}

/// The answer to an email verification, once the account was (`verified`) or
/// could not be marked verified.
pub fn verify_email_answer(verified: bool) -> (r: (u16, SimpleResponse))
    ensures
        !verified ==> simple_refused(r, 500, "Failed to verify user"@),
        verified ==> r.0 == 200 && r.1.ok && r.1.error is None && (r.1.message matches Some(m)
            && m@ == "Email verified successfully! You can now log in."@),
{
    if verified {
        (
            200,
            SimpleResponse {
                ok: true,
                message: Some("Email verified successfully! You can now log in.".to_owned()),
                error: None,
            },
        )
    } else {
        simple_failure(500, "Failed to verify user")
    }
}

/// The answer to a logout.
pub fn logout_answer() -> (r: SimpleResponse)
    ensures
        r.ok,
        r.error is None,
        r.message matches Some(m) && m@ == "Logged out"@,
{
    SimpleResponse { ok: true, message: Some("Logged out".to_owned()), error: None }
}

// ========== PROFILE ==========

/// `r` refuses a profile request with status `status` and error `msg`.
pub open spec fn profile_refused(r: (u16, ProfileResponse), status: u16, msg: Seq<char>) -> bool {
    &&& r.0 == status
    &&& !r.1.ok
    &&& r.1.user is None
    &&& r.1.error matches Some(e) && e@ == msg
}

fn profile_failure(status: u16, msg: &str) -> (r: (u16, ProfileResponse))
    ensures
        profile_refused(r, status, msg@),
{
    (status, ProfileResponse { ok: false, user: None, error: Some(msg.to_owned()) })
}

fn profile_of(u: &User) -> (r: (u16, ProfileResponse))
    ensures
        r.0 == 200 && r.1.ok && r.1.error is None && (r.1.user matches Some(info) && info_of(info, *u)),
{
    (200, ProfileResponse { ok: true, user: Some(user_info(u)), error: None })
}

/// The user a profile request is made for: `None` when the request carried no
/// auth token, else what looking the token's user up gave; the answer when
/// there is no such user.
pub fn profile_user(lookup: Option<Lookup<User>>) -> (r: Result<User, (u16, ProfileResponse)>)
    ensures
        match lookup {
            None => r matches Err(a) && profile_refused(a, 401, "Authentication required"@),
            Some(Lookup::Found(u)) => r == Ok::<User, (u16, ProfileResponse)>(u),
            Some(_) => r matches Err(a) && profile_refused(a, 401, "Invalid token"@),
        },
{
    match lookup {
        None => Err(profile_failure(401, "Authentication required")),
        Some(Lookup::Found(u)) => Ok(u),
        Some(_) => Err(profile_failure(401, "Invalid token")),
    }
}

/// The answer to a profile read, given its user.
pub fn profile_answer(user: &User) -> (r: (u16, ProfileResponse))
    ensures
        r.0 == 200 && r.1.ok && r.1.error is None && (r.1.user matches Some(info) && info_of(info, *user)),
{
    profile_of(user)
}

/// The answer to a profile change: whether the change was stored, then what
/// reading the changed user back gave.
pub fn profile_update_answer(updated: bool, fetched: Lookup<User>) -> (r: (u16, ProfileResponse))
    ensures
        !updated ==> profile_refused(r, 500, "Failed to update profile"@),
        updated ==> match fetched {
            Lookup::Found(u) => r.0 == 200 && r.1.ok && r.1.error is None && (r.1.user matches Some(info)
                && info_of(info, u)),
            _ => profile_refused(r, 500, "Failed to get updated profile"@),
        },
{
    if !updated {
        return profile_failure(500, "Failed to update profile");
    }
    match fetched {
        Lookup::Found(u) => profile_of(&u),
        _ => profile_failure(500, "Failed to get updated profile"),
    }
}

// ========== ROOMS AND ADMINS ==========

/// The seats a room is listed with.
pub const ROOM_SLOTS: usize = 8;

/// The answer to the room list: `None` when the request carried no auth token,
/// else whether its user was found; the rooms as listed by the game manager.
pub fn rooms_answer(authorized: Option<bool>, rooms: &Vec<manager::RoomInfo>) -> (r: (u16, RoomsResponse))
    ensures
        match authorized {
            None => r.0 == 401 && !r.1.ok && r.1.rooms is None && (r.1.error matches Some(e) && e@ == "No token provided"@),
            Some(false) => r.0 == 401 && !r.1.ok && r.1.rooms is None && (r.1.error matches Some(e) && e@ == "Invalid token"@),
            Some(true) => r.0 == 200 && r.1.ok && r.1.error is None && (r.1.rooms matches Some(listed) && {
                &&& listed@.len() == rooms@.len()
                &&& forall|j: int| 0 <= j < rooms@.len() ==> {
                    &&& (#[trigger] listed@[j]).name@ == rooms@[j].name@
                    &&& listed@[j].player_count == rooms@[j].player_count
                    &&& listed@[j].total_slots == ROOM_SLOTS
                }
            }),
        },
{
    match authorized {
        None => (401, RoomsResponse { ok: false, rooms: None, error: Some("No token provided".to_owned()) }),
        Some(false) => (401, RoomsResponse { ok: false, rooms: None, error: Some("Invalid token".to_owned()) }),
        Some(true) => {
            let mut listed: Vec<RoomInfo> = Vec::new();
            let mut i: usize = 0;
            while i < rooms.len()
                invariant
                    i <= rooms@.len(),
                    listed@.len() == i,
                    forall|j: int| 0 <= j < i ==> {
                        &&& (#[trigger] listed@[j]).name@ == rooms@[j].name@
                        &&& listed@[j].player_count == rooms@[j].player_count
                        &&& listed@[j].total_slots == ROOM_SLOTS
                    },
                decreases rooms@.len() - i,
            {
                listed.push(RoomInfo {
                    name: rooms[i].name.clone(),
                    player_count: rooms[i].player_count,
                    total_slots: ROOM_SLOTS,
                });
                i += 1;
            }
            (200, RoomsResponse { ok: true, rooms: Some(listed), error: None })
        },
    }
}

/// The admin making a request: the user of its auth token (`None` when it
/// carried none), if that user is an admin.
pub fn admin_user(lookup: Option<Lookup<User>>) -> (r: Option<User>)
    ensures
        match lookup {
            Some(Lookup::Found(u)) => if u.is_admin { r == Some(u) } else { r is None },
            _ => r is None,
        },
{
    match lookup {
        Some(Lookup::Found(u)) => if u.is_admin {
            Some(u)
        } else {
            None
        },
        _ => None,
    }
}

} // verus!
