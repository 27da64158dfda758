use vstd::prelude::*;
use crate::error::GameError;
use crate::session::{json_string, json_quoted};

verus! {

/// Rows of the leaderboard shown on one page.
pub const PAGE_SIZE: u32 = 10;

/// A registered player, as stored.
pub struct User {
    pub id: i32,
    pub password: Option<String>,
    pub curlevel: i32,
    pub email: String,
    pub status: Option<i32>,
    pub firstname: String,
    pub lastname: String,
    pub score: i32,
    pub money: i32,
    pub is_email_verified: bool,
    pub is_active: bool,
    pub is_randomized: bool,
    pub retryattemptsleft: i32,
    pub is_level_active: bool,
    pub curr_level_score: i32,
}

/// Who a session belongs to.
pub struct Identity {
    pub name: String,
    pub email: String,
}

/// The claims a signed token carries.
pub struct Claims {
    pub kind: String,
    pub email: String,
    pub name: String,
    pub created_at: usize,
    pub exp: usize,
}

/// The identity a request was made with, if any.
pub struct Authenticated(pub Option<Identity>);

#[derive(Clone, Copy, Debug, PartialEq, Eq, Structural)]
pub enum AuthError {
    NotAuthenticated,
}

impl AuthError {
    /// The HTTP status the error is answered with.
    pub fn status_code(&self) -> (r: u16)
        ensures
            r == 401,
    {
        match self {
            AuthError::NotAuthenticated => 401,
        }
    }
}

/// Whether the claims read from a token, if it could be read, are of the
/// kind `kind`.
pub open spec fn claims_of_kind(claims: Option<Claims>, kind: Seq<char>) -> bool {
    claims matches Some(c) && c.kind@ == kind
}

fn is_kind(claims: &Option<Claims>, kind: &String) -> (r: bool)
    ensures
        r == claims_of_kind(*claims, kind@),
{
    match claims {
        Some(c) => c.kind == *kind,
        None => false,
    }
}

/// The email that an email-verification token confirms, or the message
/// for a token that is not one.
pub fn verification_target(claims: &Option<Claims>) -> (r: Result<String, String>)
    ensures
        claims_of_kind(*claims, "Verify"@) ==> (r matches Ok(e) && e@ == claims->Some_0.email@),
        !claims_of_kind(*claims, "Verify"@) ==> (r matches Err(m) && m@ == "Invalid token"@),
{
    if is_kind(claims, &"Verify".to_owned()) {
        match claims {
            Some(c) => Ok(c.email.clone()),
            None => Err("Invalid token".to_owned()),
        }
    } else {
        Err("Invalid token".to_owned())
    }
}

/// Whether a token may be used to reset a password.
pub fn token_validate(claims: &Option<Claims>) -> (r: bool)
    ensures
        r == claims_of_kind(*claims, "Reset"@),
{
    is_kind(claims, &"Reset".to_owned())
}

/// The email whose password a reset token lets the player change, or the
/// status and message to answer with: a token that could not be read is
/// refused with status false, one of another kind with status true.
pub fn password_reset_target(claims: &Option<Claims>) -> (r: Result<String, (bool, String)>)
    ensures
        match claims {
            None => r matches Err((status, m)) && !status && m@ == "Invalid Token"@,
            Some(c) => if c.kind@ == "Reset"@ {
                r matches Ok(e) && e@ == c.email@
            } else {
                r matches Err((status, m)) && status && m@ == "Invalid token"@
            },
        },
{
    match claims {
        None => Err((false, "Invalid Token".to_owned())),
        Some(c) => if is_kind(claims, &"Reset".to_owned()) {
            Ok(c.email.clone())
        } else {
            Err((true, "Invalid token".to_owned()))
        },
    }
}

/// A registration form.
pub struct RegisterUser {
    pub firstname: String,
    pub lastname: String,
    pub password: String,
    pub email: String,
}

/// A login form.
pub struct LoginUser {
    pub password: String,
    pub email: String,
}

/// A player to be stored, with the password hashed.
pub struct NewUser {
    pub firstname: String,
    pub lastname: String,
    pub password: String,
    pub email: String,
}

pub struct AuthResult {
    pub is_verified: bool,
    pub status: String,
}

pub struct LogoutResult {
    pub is_logged_out: bool,
    pub status: String,
}

pub struct CheckAuthResult {
    pub status: bool,
    pub email: Option<String>,
}

/// Whether `password` matches the bcrypt hash `hash`; `None` if `hash` is not
/// a bcrypt hash.
pub uninterp spec fn bcrypt_matches(password: Seq<char>, hash: Seq<char>) -> Option<bool>;

/// Relies on bcrypt's `verify`: whether the password hashes to the given
/// hash under its salt and cost, or an error for a malformed hash.
#[verifier::external_body]
fn check_password(password: &String, hash: &String) -> (r: Option<bool>)
    ensures
        r == bcrypt_matches(password@, hash@),
{
    bcrypt::verify(password.as_str(), hash.as_str()).ok()
}

/// Relies on bcrypt's `hash` at its default cost, which salts at random:
/// a hash string of 60 characters that `verify` accepts for the password,
/// or an error.
#[verifier::external_body]
fn hash_password(password: &String) -> (r: Option<String>)
    ensures
        r matches Some(h) ==> h@.len() == 60,
        r matches Some(h) ==> bcrypt_matches(password@, h@) == Some(true),
{
    bcrypt::hash(password.as_str(), bcrypt::DEFAULT_COST).ok()
}

/// The session token for a player: their identity as a JSON object.
pub open spec fn identity_token(name: Seq<char>, email: Seq<char>) -> Seq<char> {
    "{\"name\":"@ + json_quoted(name) + ",\"email\":"@ + json_quoted(email) + "}"@
}

/// The outcome of a login attempt when the stored hash could be checked.
pub open spec fn login_result(user: Option<User>, password: Seq<char>) -> Option<(bool, Seq<char>, Seq<char>)> {
    match user {
        None => Some((false, Seq::empty(), "User doesn't exist"@)),
        Some(u) => if !u.is_email_verified {
            Some((false, Seq::empty(), "User not verified"@))
        } else {
            match u.password {
                None => Some((false, Seq::empty(), "Password doesn't exist"@)),
                Some(p) => match bcrypt_matches(password, p@) {
                    None => None,
                    Some(true) => Some((true, identity_token(u.firstname@, u.email@), "Successfully authenticated"@)),
                    Some(false) => Some((false, Seq::empty(), "Wrong Password"@)),
                },
            }
        },
    }
}

/// Checks a login for `user`, the player stored under the email given if
/// there is one: whether it succeeds, the session token, and the message to
/// show. `None` if the stored hash cannot be checked.
pub fn verify_user_by_email(user: &Option<User>, password: &String) -> (r: Option<(bool, String, String)>)
    ensures
        match r {
            Some((ok, token, status)) => login_result(*user, password@) == Some((ok, token@, status@)),
            None => login_result(*user, password@) is None,
        },
{
    match user {
        None => Some((false, String::new(), "User doesn't exist".to_owned())),
        Some(u) => {
            if !u.is_email_verified {
                return Some((false, String::new(), "User not verified".to_owned()));
            }
            match &u.password {
                None => Some((false, String::new(), "Password doesn't exist".to_owned())),
                Some(p) => match check_password(password, p) {
                    None => None,
                    Some(true) => {
                        let name = json_string(&u.firstname);
                        let email = json_string(&u.email);
                        match (name, email) {
                            (Some(n), Some(e)) => {
                                let mut token = "{\"name\":".to_owned();
                                token.append(n.as_str());
                                token.append(",\"email\":");
                                token.append(e.as_str());
                                token.append("}");
                                Some((true, token, "Successfully authenticated".to_owned()))
                            },
                            _ => None,
                        }
                    },
                    Some(false) => Some((false, String::new(), "Wrong Password".to_owned())),
                },
            }
        },
    }
}

/// The player to store for a registration form, the password hashed.
/// `None` if hashing fails.
pub fn insert_new_user(form: &RegisterUser) -> (r: Option<NewUser>)
    ensures
        r matches Some(u) ==> u.firstname@ == form.firstname@ && u.lastname@ == form.lastname@
            && u.email@ == form.email@ && u.password@.len() == 60
            && bcrypt_matches(form.password@, u.password@) == Some(true),
{
    match hash_password(&form.password) {
        Some(h) => Some(
            NewUser {
                firstname: form.firstname.clone(),
                lastname: form.lastname.clone(),
                password: h,
                email: form.email.clone(),
            },
        ),
        None => None,
    }
}

/// Whether a request is authenticated, with its email, and the HTTP status
/// to answer with.
pub fn check_auth(user: &Authenticated) -> (r: (CheckAuthResult, u16))
    ensures
        r.0.status == user.0 is Some,
        r.1 == (if user.0 is Some { 200u16 } else { 401u16 }),
        match user.0 {
            Some(i) => r.0.email matches Some(e) && e@ == i.email@,
            None => r.0.email is None,
        },
{
    match &user.0 {
        Some(i) => (CheckAuthResult { status: true, email: Some(i.email.clone()) }, 200),
        None => (CheckAuthResult { status: false, email: None }, 401),
    }
}

/// What resending the verification email to `user` comes to: whether it is
/// sent, and the message to show.
pub fn resend_verification_email(user: &Option<User>) -> (r: (bool, String))
    ensures
        match user {
            None => !r.0 && r.1@ == "User not found"@,
            Some(u) => if u.is_email_verified {
                !r.0 && r.1@ == "User already verified"@
            } else {
                r.0 && r.1@ == "Verification Email resent"@
            },
        },
{
    match user {
        None => (false, "User not found".to_owned()),
        Some(u) => if u.is_email_verified {
            (false, "User already verified".to_owned())
        } else {
            (true, "Verification Email resent".to_owned())
        },
    }
}

/// A request to choose the mode of the next level.
pub struct ChangeLevelRequest {
    pub is_randomized: bool,
}

pub struct ChangeLevelResponse {
    pub status: bool,
}

/// The player's position in the game.
pub struct LevelResponse {
    pub cur_level: i32,
    pub is_randomized: bool,
    pub is_active: bool,
    pub retries_left: i32,
}

pub struct LevelError {
    pub message: String,
}

pub struct DbResponse {
    pub message: String,
}

pub struct LevelResult {
    pub level_no: i32,
}

/// Starts a level in the chosen mode, unless one is already under way: the
/// player's money is reset, to 600 in randomized mode and 500 otherwise.
/// Returns whether the level was started.
pub fn change_level_type(user: &mut User, level_type: bool) -> (r: bool)
    ensures
        r == !old(user).is_level_active,
        r ==> final(user).is_level_active && final(user).is_randomized == level_type
            && final(user).money == (if level_type { 600i32 } else { 500i32 }),
        r ==> final(user).curlevel == old(user).curlevel && final(user).score == old(user).score
            && final(user).retryattemptsleft == old(user).retryattemptsleft
            && final(user).status == old(user).status,
        !r ==> *final(user) == *old(user),
{
    if user.is_level_active {
        false
    } else {
        user.is_level_active = true;
        user.is_randomized = level_type;
        user.money = if level_type {
            600
        } else {
            500
        };
        true
    }
}

/// The player's level, mode and retries; the level reads -1 once no retries
/// are left.
pub fn level_details(user: &User) -> (r: LevelResponse)
    ensures
        r.cur_level == (if user.retryattemptsleft < 1 { -1i32 } else { user.curlevel }),
        r.is_randomized == user.is_randomized,
        r.is_active == user.is_level_active,
        r.retries_left == user.retryattemptsleft,
{
    LevelResponse {
        cur_level: if user.retryattemptsleft < 1 {
            -1
        } else {
            user.curlevel
        },
        is_randomized: user.is_randomized,
        is_active: user.is_level_active,
        retries_left: user.retryattemptsleft,
    }
}

/// `a / b` rounded toward zero.
pub open spec fn trunc_div(a: int, b: int) -> int {
    let q = abs_int(a) / abs_int(b);
    if (a < 0) != (b < 0) {
        -q
    } else {
        q
    }
}

pub open spec fn abs_int(v: int) -> int {
    if v < 0 {
        -v
    } else {
        v
    }
}

/// The level's score once an attempt scoring `attempt` is counted with the
/// earlier ones, `tries_left` being the retries left before it: the mean of
/// the attempts so far.
pub open spec fn level_score(curr: i32, tries_left: i32, attempt: i32) -> int {
    trunc_div(curr * (3 - tries_left) + attempt, 4 - tries_left)
}

fn trunc_div_exec(a: i64, b: i64) -> (r: i64)
    requires
        b != 0,
        a > i64::MIN,
        b > i64::MIN,
    ensures
        r == trunc_div(a as int, b as int),
{
    let ua: i64 = if a < 0 {
        -a
    } else {
        a
    };
    let ub: i64 = if b < 0 {
        -b
    } else {
        b
    };
    let q = ua / ub;
    if (a < 0) != (b < 0) {
        -q
    } else {
        q
    }
}

/// Records the end of an attempt at the level: one retry fewer, the money
/// left, the level's score made the mean of its attempts and the total score
/// adjusted to it, and no level under way. Fails, changing nothing, when
/// no retry was counted down to divide by or a value does not fit.
pub fn update_user_at_level_end(user: &mut User, attempt_score: i32, user_money: i32) -> (r: Result<(), GameError>)
    ensures
        r is Err <==> (old(user).retryattemptsleft == 4 || old(user).retryattemptsleft == i32::MIN
            || !(i32::MIN <= level_score(old(user).curr_level_score, old(user).retryattemptsleft, attempt_score) <= i32::MAX)
            || !(i32::MIN <= old(user).score - old(user).curr_level_score + level_score(
                old(user).curr_level_score,
                old(user).retryattemptsleft,
                attempt_score,
            ) <= i32::MAX)),
        r is Err ==> r == Err::<(), GameError>(GameError::PersistenceFailure) && *final(user) == *old(user),
        r is Ok ==> {
            let s = level_score(old(user).curr_level_score, old(user).retryattemptsleft, attempt_score);
            &&& final(user).retryattemptsleft == old(user).retryattemptsleft - 1
            &&& final(user).money == user_money
            &&& final(user).curr_level_score == s
            &&& final(user).score == old(user).score - old(user).curr_level_score + s
            &&& final(user).status is None
            &&& !final(user).is_level_active
            &&& final(user).curlevel == old(user).curlevel
        },
{
    let tries = user.retryattemptsleft;
    if tries == 4 || tries == i32::MIN {
        return Err(GameError::PersistenceFailure);
    }
    let curr = user.curr_level_score as i64;
    let m: i64 = 3 - tries as i64;
    assert(-0x4000_0002_0000_0000 <= curr * m <= 0x4000_0002_0000_0000) by (nonlinear_arith)
        requires
            -0x8000_0000 <= curr < 0x8000_0000,
            -0x8000_0000 <= m <= 0x8000_0003,
    ;
    let num: i64 = curr * m + attempt_score as i64;
    let den: i64 = 4 - tries as i64;
    let s = trunc_div_exec(num, den);
    if s < i32::MIN as i64 || s > i32::MAX as i64 {
        return Err(GameError::PersistenceFailure);
    }
    let total = user.score as i64 - curr + s;
    if total < i32::MIN as i64 || total > i32::MAX as i64 {
        return Err(GameError::PersistenceFailure);
    }
    user.retryattemptsleft = tries - 1;
    user.money = user_money;
    user.curr_level_score = s as i32;
    user.score = total as i32;
    user.status = None;
    user.is_level_active = false;
    Ok(())
}

/// A row of the leaderboard.
pub struct LeaderboardEntry {
    pub firstname: String,
    pub lastname: String,
    pub score: i32,
    pub rank: i64,
}

/// How many leaderboard rows come before page `pg_num`, pages counted from 1.
pub fn page_offset(pg_num: u32) -> (r: Option<u32>)
    ensures
        match r {
            Some(o) => pg_num >= 1 && o == PAGE_SIZE * (pg_num - 1),
            None => pg_num == 0 || PAGE_SIZE * (pg_num - 1) > u32::MAX,
        },
{
    if pg_num == 0 {
        return None;
    }
    let n = pg_num - 1;
    if n > u32::MAX / PAGE_SIZE {
        return None;
    }
    Some(PAGE_SIZE * n)
}

/// The player's score as sent.
pub struct ScoreResponse {
    pub status: String,
    pub data: i32,
}

/// The player's money as sent.
pub struct MoneyResponse {
    pub status: String,
    pub data: i32,
}

/// The response for a score that was, or could not be, read.
pub fn score_response(score: Option<i32>) -> (r: ScoreResponse)
    ensures
        match score {
            Some(s) => r.status@ == "Success"@ && r.data == s,
            None => r.status@ == "Failed"@ && r.data == 0,
        },
{
    match score {
        Some(s) => ScoreResponse { status: "Success".to_owned(), data: s },
        None => ScoreResponse { status: "Failed".to_owned(), data: 0 },
    }
}

/// The response for an amount of money that was, or could not be, read.
pub fn money_response(money: Option<i32>) -> (r: MoneyResponse)
    ensures
        match money {
            Some(m) => r.status@ == "Success"@ && r.data == m,
            None => r.status@ == "Failed"@ && r.data == 0,
        },
{
    match money {
        Some(m) => MoneyResponse { status: "Success".to_owned(), data: m },
        None => MoneyResponse { status: "Failed".to_owned(), data: 0 },
    }
}

} // verus!
