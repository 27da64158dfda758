use outbreak::account::{
    change_level_type, check_auth, insert_new_user, level_details, money_response, page_offset,
    password_reset_target, resend_verification_email, score_response, token_validate, update_user_at_level_end,
    verification_target, verify_user_by_email, AuthError, Authenticated, Claims, Identity, RegisterUser, User,
};
use outbreak::error::GameError;

fn user() -> User {
    User {
        id: 1,
        password: None,
        curlevel: 2,
        email: "usera@email.com".to_string(),
        status: Some(3),
        firstname: "Ada".to_string(),
        lastname: "User".to_string(),
        score: 50,
        money: 120,
        is_email_verified: true,
        is_active: true,
        is_randomized: false,
        retryattemptsleft: 3,
        is_level_active: true,
        curr_level_score: 0,
    }
}

#[test]
fn login_checks_password() {
    let mut u = user();
    u.password = Some(bcrypt::hash("hunter2", 4).unwrap());
    let ok = verify_user_by_email(&Some(u), &"hunter2".to_string()).unwrap();
    assert_eq!(ok, (true, "{\"name\":\"Ada\",\"email\":\"usera@email.com\"}".to_string(), "Successfully authenticated".to_string()));
    let mut u = user();
    u.password = Some(bcrypt::hash("hunter2", 4).unwrap());
    let bad = verify_user_by_email(&Some(u), &"hunter3".to_string()).unwrap();
    assert_eq!(bad, (false, String::new(), "Wrong Password".to_string()));
}

#[test]
fn login_failures() {
    assert_eq!(verify_user_by_email(&None, &"x".to_string()).unwrap().2, "User doesn't exist");
    let mut u = user();
    u.is_email_verified = false;
    assert_eq!(verify_user_by_email(&Some(u), &"x".to_string()).unwrap().2, "User not verified");
    assert_eq!(verify_user_by_email(&Some(user()), &"x".to_string()).unwrap().2, "Password doesn't exist");
    let mut u = user();
    u.password = Some("not a hash".to_string());
    assert!(verify_user_by_email(&Some(u), &"x".to_string()).is_none());
}

#[test]
fn registration_hashes_password() {
    let form = RegisterUser {
        firstname: "Ada".to_string(),
        lastname: "User".to_string(),
        password: "hunter2".to_string(),
        email: "usera@email.com".to_string(),
    };
    let n = insert_new_user(&form).unwrap();
    assert_eq!(n.firstname, "Ada");
    assert_eq!(n.email, "usera@email.com");
    assert_eq!(n.password.len(), 60);
    assert_ne!(n.password, "hunter2");
    assert!(bcrypt::verify("hunter2", &n.password).unwrap());
}

#[test]
fn auth_check_and_status() {
    let (r, code) = check_auth(&Authenticated(Some(Identity { name: "Ada".to_string(), email: "a@b.c".to_string() })));
    assert!(r.status);
    assert_eq!(r.email, Some("a@b.c".to_string()));
    assert_eq!(code, 200);
    let (r, code) = check_auth(&Authenticated(None));
    assert!(!r.status);
    assert_eq!(r.email, None);
    assert_eq!(code, 401);
    assert_eq!(AuthError::NotAuthenticated.status_code(), 401);
}

#[test]
fn resend_verification_decisions() {
    assert_eq!(resend_verification_email(&None), (false, "User not found".to_string()));
    assert_eq!(resend_verification_email(&Some(user())), (false, "User already verified".to_string()));
    let mut u = user();
    u.is_email_verified = false;
    assert_eq!(resend_verification_email(&Some(u)), (true, "Verification Email resent".to_string()));
}

#[test]
fn change_level_only_when_idle() {
    let mut u = user();
    assert!(!change_level_type(&mut u, true));
    assert_eq!(u.money, 120);
    u.is_level_active = false;
    assert!(change_level_type(&mut u, true));
    assert_eq!(u.money, 600);
    assert!(u.is_randomized && u.is_level_active);
    u.is_level_active = false;
    assert!(change_level_type(&mut u, false));
    assert_eq!(u.money, 500);
    assert!(!u.is_randomized);
}

#[test]
fn level_details_hide_level_without_retries() {
    let mut u = user();
    assert_eq!(level_details(&u).cur_level, 2);
    u.retryattemptsleft = 0;
    let r = level_details(&u);
    assert_eq!(r.cur_level, -1);
    assert_eq!(r.retries_left, 0);
    assert!(r.is_active);
}

#[test]
fn level_end_averages_attempts() {
    let mut u = user();
    u.curr_level_score = 0;
    u.retryattemptsleft = 3;
    assert_eq!(update_user_at_level_end(&mut u, 900, 75), Ok(()));
    assert_eq!(u.curr_level_score, 900);
    assert_eq!(u.score, 950);
    assert_eq!(u.retryattemptsleft, 2);
    assert_eq!(u.money, 75);
    assert_eq!(u.status, None);
    assert!(!u.is_level_active);
    assert_eq!(update_user_at_level_end(&mut u, 600, 10), Ok(()));
    assert_eq!(u.curr_level_score, 750);
    assert_eq!(u.score, 800);
    let mut v = user();
    v.retryattemptsleft = 4;
    assert_eq!(update_user_at_level_end(&mut v, 600, 10), Err(GameError::PersistenceFailure));
    assert_eq!(v.score, 50);
    let mut w = user();
    w.retryattemptsleft = 2;
    w.curr_level_score = 7;
    assert_eq!(update_user_at_level_end(&mut w, -10, 10), Ok(()));
    assert_eq!(w.curr_level_score, -1);
}

#[test]
fn leaderboard_pages() {
    assert_eq!(page_offset(1), Some(0));
    assert_eq!(page_offset(3), Some(20));
    assert_eq!(page_offset(0), None);
    assert_eq!(page_offset(u32::MAX), None);
}

#[test]
fn stats_responses() {
    let s = score_response(Some(42));
    assert_eq!((s.status.as_str(), s.data), ("Success", 42));
    let s = score_response(None);
    assert_eq!((s.status.as_str(), s.data), ("Failed", 0));
    let m = money_response(Some(7));
    assert_eq!((m.status.as_str(), m.data), ("Success", 7));
    let m = money_response(None);
    assert_eq!((m.status.as_str(), m.data), ("Failed", 0));
}

fn claims(kind: &str) -> Option<Claims> {
    Some(Claims {
        kind: kind.to_string(),
        email: "usera@email.com".to_string(),
        name: "Ada".to_string(),
        created_at: 10,
        exp: 20,
    })
}

#[test]
fn token_kinds_decide() {
    assert_eq!(verification_target(&claims("Verify")), Ok("usera@email.com".to_string()));
    assert_eq!(verification_target(&claims("Reset")), Err("Invalid token".to_string()));
    assert_eq!(verification_target(&None), Err("Invalid token".to_string()));
    assert!(token_validate(&claims("Reset")));
    assert!(!token_validate(&claims("Verify")));
    assert!(!token_validate(&None));
    assert_eq!(password_reset_target(&claims("Reset")), Ok("usera@email.com".to_string()));
    assert_eq!(password_reset_target(&claims("Verify")), Err((true, "Invalid token".to_string())));
    assert_eq!(password_reset_target(&None), Err((false, "Invalid Token".to_string())));
}
