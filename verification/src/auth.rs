//! Authentication: users, token claims, and the decisions of the request
//! guards and of the login endpoint.
//!
//! Signing and checking tokens, hashing passwords and storing users
//! happen outside this module; it decides what to ask of them and what
//! their answers mean.

use vstd::prelude::*;
use crate::device::Timestamp;
use crate::protocol::ServerEvent;
use crate::strmap::str_eq;
use crate::text::{chars_to_string, has_prefix, starts_with, str_to_chars};

verus! {

/// An error answer of the REST API: an HTTP status and a message.
#[derive(Clone, Debug)]
pub struct ApiError {
    pub status: u16,
    pub message: String,
}

/// Authenticated user identity, set on a request by the auth guard.
#[derive(Clone, Debug)]
pub struct AuthUser {
    pub username: String,
    pub role: String,
}

/// The claims of a session token.
#[derive(Clone, Debug)]
pub struct Claims {
    /// Username
    pub sub: String,
    /// Role (admin, user, viewer)
    pub role: String,
    /// Expiry (Unix timestamp)
    pub exp: i64,
    /// Issued at (Unix timestamp)
    pub iat: i64,
}

/// A stored user.
#[derive(Clone, Debug)]
pub struct User {
    pub id: i64,
    pub username: String,
    pub password_hash: String,
    pub role: String,
    pub enabled: bool,
    pub created_at: String,
}

/// A request to create a user.
#[derive(Clone, Debug)]
pub struct CreateUser {
    pub username: String,
    pub password: String,
    pub role: String,
}

/// A request to change a user; absent fields stay as they are.
#[derive(Clone, Debug)]
pub struct UpdateUser {
    pub password: Option<String>,
    pub role: Option<String>,
    pub enabled: Option<bool>,
}

/// The body of a login request.
#[derive(Clone, Debug)]
pub struct LoginBody {
    pub username: String,
    pub password: String,
}

/// The body of a nickname change.
#[derive(Clone, Debug)]
pub struct NicknameBody {
    pub nickname: String,
}

/// The query of a history request.
#[derive(Clone, Debug)]
pub struct HistoryQuery {
    pub limit: usize,
    pub event_type: Option<String>,
}

/// The number of history entries returned when the query gives none.
pub fn default_history_limit() -> (n: usize)
    ensures
        n == 100,
{
    100
}

/// The largest whole number of seconds that a time span can hold
/// (`chrono::TimeDelta`, `i64::MAX` milliseconds).
pub open spec fn max_span_secs() -> int {
    9223372036854775
}

/// The earliest and latest whole seconds of the representable UTC times
/// (years -262143 to 262142).
pub open spec fn min_timestamp() -> int {
    -8334601315200
}

pub open spec fn max_timestamp() -> int {
    8210266876799
}

/// Whether a token issued at `now` for `expire_hours` hours has an
/// expiry that can be represented.
pub open spec fn expiry_representable(now: Timestamp, expire_hours: int) -> bool {
    &&& -max_span_secs() <= expire_hours * 3600 <= max_span_secs()
    &&& min_timestamp() <= now.secs + expire_hours * 3600 <= max_timestamp()
}

/// Whether the expiry of a token issued at `now` for `expire_hours`
/// hours can be represented.
pub fn expiry_in_range(now: Timestamp, expire_hours: i64) -> (b: bool)
    ensures
        b == expiry_representable(now, expire_hours as int),
{
    let span = (expire_hours as i128) * 3600;
    let exp = (now.secs as i128) + span;
    -9223372036854775i128 <= span && span <= 9223372036854775i128 && -8334601315200i128 <= exp
        && exp <= 8210266876799i128
}

impl Claims {
    /// The claims of a token for `username` with `role`, issued at `now`
    /// and expiring `expire_hours` hours later.
    pub fn for_user(username: &str, role: &str, now: Timestamp, expire_hours: i64) -> (c: Claims)
        requires
            expiry_representable(now, expire_hours as int),
        ensures
            c.sub@ == username@,
            c.role@ == role@,
            c.iat == now.secs,
            c.exp == now.secs + expire_hours * 3600,
    {
        Claims {
            sub: String::from_str(username),
            role: String::from_str(role),
            exp: now.secs + expire_hours * 3600,
            iat: now.secs,
        }
    }
}

/// What the auth guard does with a request.
#[derive(Clone, Debug)]
pub enum AuthStep {
    /// Let the request through as this user.
    Allow(AuthUser),
    /// Check this bearer token; the request goes through as its subject
    /// when it is valid.
    Validate(String),
    /// Answer with this error.
    Reject(ApiError),
}

pub open spec fn bearer_prefix() -> Seq<char> {
    "Bearer "@
}

/// The guard's first step: in open mode everyone is the anonymous admin;
/// otherwise the `Authorization` header must hold `Bearer <token>`.
pub fn auth_step(security_mode: &str, authorization: Option<&str>) -> (r: AuthStep)
    ensures
        security_mode@ == "open"@ ==> (r matches AuthStep::Allow(u) && u.username@ == "anonymous"@
            && u.role@ == "admin"@),
        security_mode@ != "open"@ ==> match authorization {
            Some(h) => if has_prefix(h@, bearer_prefix()) {
                r matches AuthStep::Validate(t) && t@ == h@.subrange(7, h@.len() as int)
            } else {
                r matches AuthStep::Reject(e) && e.status == 401 && e.message@
                    == "Missing authentication token"@
            },
            None => r matches AuthStep::Reject(e) && e.status == 401 && e.message@
                == "Missing authentication token"@,
        },
{
    if str_eq(security_mode, "open") {
        return AuthStep::Allow(
            AuthUser { username: String::from_str("anonymous"), role: String::from_str("admin") },
        );
    }
    let missing = ApiError { status: 401, message: String::from_str("Missing authentication token") };
    match authorization {
        Some(h) => {
            let chars = str_to_chars(h);
            let prefix: [char; 7] = ['B', 'e', 'a', 'r', 'e', 'r', ' '];
            proof {
                reveal_strlit("Bearer ");
                assert(prefix@ =~= bearer_prefix());
            }
            if starts_with(chars.as_slice(), prefix.as_slice()) {
                AuthStep::Validate(chars_to_string(&chars.as_slice()[7..chars.len()]))
            } else {
                AuthStep::Reject(missing)
            }
        },
        None => AuthStep::Reject(missing),
    }
}

/// The guard's answer once the token was checked: its claims when valid,
/// `None` when not.
pub fn after_validation(claims: Option<Claims>) -> (r: Result<AuthUser, ApiError>)
    ensures
        match claims {
            Some(c) => r matches Ok(u) && u.username == c.sub && u.role == c.role,
            None => r matches Err(e) && e.status == 401 && e.message@ == "Invalid or expired token"@,
        },
{
    match claims {
        Some(c) => Ok(AuthUser { username: c.sub, role: c.role }),
        None => Err(ApiError { status: 401, message: String::from_str("Invalid or expired token") }),
    }
}

/// The admin guard: only an authenticated admin passes.
pub fn admin_check(user: Option<&AuthUser>) -> (r: Result<(), ApiError>)
    ensures
        match user {
            Some(u) => if u.role@ == "admin"@ {
                r is Ok
            } else {
                r matches Err(e) && e.status == 403 && e.message@ == "Admin access required"@
            },
            None => r matches Err(e) && e.status == 401 && e.message@ == "Not authenticated"@,
        },
{
    match user {
        Some(u) => if str_eq(u.role.as_str(), "admin") {
            Ok(())
        } else {
            Err(ApiError { status: 403, message: String::from_str("Admin access required") })
        },
        None => Err(ApiError { status: 401, message: String::from_str("Not authenticated") }),
    }
}

/// What a login request comes to.
#[derive(Clone, Debug)]
pub enum LoginOutcome {
    /// Issue a token for this user name and role.
    Issue { username: String, role: String },
    /// Refuse, and announce the failed attempt.
    Refuse { error: ApiError, event: ServerEvent },
}

/// The login decision: in open mode anyone gets an admin token under the
/// name given; otherwise the user that the credentials authenticated gets
/// a token with its role, and a failed attempt is refused and announced.
pub fn login_outcome(open_mode: bool, body_username: &str, authenticated: Option<&User>) -> (r: LoginOutcome)
    ensures
        open_mode ==> (r matches LoginOutcome::Issue { username, role } && username@ == body_username@
            && role@ == "admin"@),
        !open_mode ==> match authenticated {
            Some(u) => r matches LoginOutcome::Issue { username, role } && username == u.username
                && role == u.role,
            None => r matches LoginOutcome::Refuse { error, event } && error.status == 401
                && error.message@ == "Invalid username or password"@ && (event matches ServerEvent::AuthFailed {
                client_ip,
                reason,
            } && client_ip@ == "unknown"@ && reason@ == "Invalid credentials for "@ + body_username@),
        },
{
    if open_mode {
        return LoginOutcome::Issue { username: String::from_str(body_username), role: String::from_str("admin") };
    }
    match authenticated {
        Some(u) => LoginOutcome::Issue { username: u.username.clone(), role: u.role.clone() },
        None => {
            let mut reason = String::from_str("Invalid credentials for ");
            reason.append(body_username);
            LoginOutcome::Refuse {
                error: ApiError { status: 401, message: String::from_str("Invalid username or password") },
                event: ServerEvent::AuthFailed { client_ip: String::from_str("unknown"), reason },
            }
        },
    }
}

/// The user that a login authenticates: a disabled user never, an
/// enabled one when its password matched.
pub fn authenticated_user(user: Option<User>, password_ok: bool) -> (r: Option<User>)
    ensures
        match user {
            Some(u) => if u.enabled && password_ok {
                r == Some(u)
            } else {
                r is None
            },
            None => r is None,
        },
{
    match user {
        Some(u) => if u.enabled && password_ok {
            Some(u)
        } else {
            None
        },
        None => None,
    }
}

/// Whether an update changes nothing (and the store is not touched).
pub fn update_is_empty(update: &UpdateUser) -> (b: bool)
    ensures
        b == (update.password is None && update.role is None && update.enabled is None),
{
    update.password.is_none() && update.role.is_none() && update.enabled.is_none()
}

/// The answer to an update or a deletion of a user: success when a user
/// was changed, else 404.
pub fn user_change_answer(changed: bool) -> (r: Result<(), ApiError>)
    ensures
        changed ==> r is Ok,
        !changed ==> (r matches Err(e) && e.status == 404 && e.message@ == "User not found"@),
{
    if changed {
        Ok(())
    } else {
        Err(ApiError { status: 404, message: String::from_str("User not found") })
    }
}

/// A user as the API lists it: without its password hash.
pub fn without_secret(user: User) -> (r: User)
    ensures
        r.password_hash@ == Seq::<char>::empty(),
        r.id == user.id,
        r.username == user.username,
        r.role == user.role,
        r.enabled == user.enabled,
        r.created_at == user.created_at,
{
    User { password_hash: String::new(), ..user }
}

} // verus!
