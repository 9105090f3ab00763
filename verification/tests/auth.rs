use nexus_controller::auth::{generate_token, get_current_user, initial_store, initial_users, logout, LoginRequest, User, UserStore};
use std::time::{SystemTime, UNIX_EPOCH};

fn now() -> i64 {
    SystemTime::now().duration_since(UNIX_EPOCH).unwrap().as_secs() as i64
}

fn store_with(username: &str, password: &str) -> UserStore {
    let user = User {
        username: username.to_string(),
        password_hash: bcrypt::hash(password, 4).unwrap(),
        role: "admin".to_string(),
        created_at: 0,
        last_login: None,
    };
    UserStore::from_users(vec![user]).unwrap()
}

#[test]
fn demo_login_accepts_anyone() {
    let mut s = UserStore::from_users(vec![]).unwrap();
    let t = now();
    let r = s.login("admin", "whatever", true, t).unwrap();
    assert_eq!(r.user.role, "admin");
    assert_eq!(r.user.last_login, Some(t));
    let r = s.login("bob", "", true, t).unwrap();
    assert_eq!(r.user.role, "operator");
    assert_eq!(s.get_user("bob").unwrap().password_hash, "");
    let u = get_current_user(&r.token).unwrap();
    assert_eq!(u.username, "bob");
    assert_eq!(u.role, "operator");
    assert_eq!(u.last_login, None);
}

#[test]
fn password_login() {
    let mut s = store_with("admin", "Nexus");
    let t = now();
    let r = s.login("admin", "Nexus", false, t).unwrap();
    assert_eq!(r.user.username, "admin");
    assert_eq!(s.get_user("admin").unwrap().last_login, Some(t));
    assert_eq!(r.token.split('.').count(), 3);
    assert_eq!(s.login("admin", "wrong", false, t).err(), Some("Invalid username or password".to_string()));
    assert_eq!(s.login("nobody", "Nexus", false, t).err(), Some("Invalid username or password".to_string()));
}

#[test]
fn malformed_hash_fails_authentication() {
    let user = User {
        username: "x".to_string(),
        password_hash: "not-a-hash".to_string(),
        role: "operator".to_string(),
        created_at: 0,
        last_login: None,
    };
    let mut s = UserStore::from_users(vec![user]).unwrap();
    let e = s.login("x", "pw", false, now()).err().unwrap();
    assert!(e.starts_with("Authentication failed: "));
}

#[test]
fn duplicate_usernames_are_refused() {
    let a = User { username: "a".to_string(), password_hash: String::new(), role: "r".to_string(), created_at: 0, last_login: None };
    let b = a.clone();
    assert!(UserStore::from_users(vec![a, b]).is_none());
}

#[test]
fn tokens_are_deterministic() {
    let a = generate_token("admin", "admin", 1_700_000_000).unwrap();
    let b = generate_token("admin", "admin", 1_700_000_000).unwrap();
    let c = generate_token("admin", "operator", 1_700_000_000).unwrap();
    assert_eq!(a, b);
    assert_ne!(a, c);
}

#[test]
fn invalid_token_is_refused() {
    let e = get_current_user("not.a.token").err().unwrap();
    assert!(e.starts_with("Invalid token: "));
    let expired = generate_token("admin", "admin", 1_000_000_000).unwrap();
    assert!(get_current_user(&expired).is_err());
}

#[test]
fn changed_password_logs_in() {
    let mut s = store_with("admin", "Nexus");
    let t = now();
    let token = s.login("admin", "Nexus", false, t).unwrap().token;
    assert_eq!(s.update_password(&token, "bad", "Fresh1").err(), Some("Invalid old password".to_string()));
    s.update_password(&token, "Nexus", "Fresh1").unwrap();
    assert!(s.login("admin", "Fresh1", false, t).is_ok());
    assert!(s.login("admin", "Nexus", false, t).is_err());
}

#[test]
fn password_change_needs_a_valid_token_and_user() {
    let mut s = store_with("admin", "Nexus");
    assert!(s.update_password("garbage", "Nexus", "x").err().unwrap().starts_with("Invalid token: "));
    let other = generate_token("ghost", "admin", now()).unwrap();
    assert_eq!(s.update_password(&other, "Nexus", "x").err(), Some("User not found".to_string()));
}

#[test]
fn logout_always_succeeds() {
    assert_eq!(logout(), Ok(()));
    let r = LoginRequest { username: "a".to_string(), password: "b".to_string() };
    assert_eq!(r.username, "a");
}

#[test]
fn desktop_sign_in_takes_any_name() {
    let mut s = nexus_controller::auth::DesktopSession::new();
    assert!(!s.is_authenticated && s.show_login);
    s.login("");
    assert!(!s.is_authenticated && s.show_login);
    s.login("operator");
    assert!(s.is_authenticated && !s.show_login);
    assert_eq!(s.username, "operator");
    s.logout();
    assert!(!s.is_authenticated && s.show_login);
}

#[test]
fn five_quick_logo_clicks_open_the_admin_panel() {
    let mut a = nexus_controller::admin_access::AdminAccess::new(0);
    for t in [5_000u64, 6_000, 7_500, 9_000] {
        a.logo_click(t);
        assert!(!a.show_admin_panel);
    }
    a.logo_click(10_999);
    assert!(a.show_admin_panel);
    assert_eq!(a.logo_click_count, 0);
    a.submit_pin(false);
    assert!(!a.admin_authenticated);
    a.submit_pin(true);
    assert!(a.admin_authenticated);
    a.close();
    assert!(!a.show_admin_panel && !a.admin_authenticated);

    let mut b = nexus_controller::admin_access::AdminAccess::new(0);
    for t in [5_000u64, 6_000, 9_000, 10_000, 11_000] {
        b.logo_click(t);
    }
    assert!(!b.show_admin_panel);
    assert_eq!(b.logo_click_count, 3);
    b.logo_click(11_500);
    assert!(!b.show_admin_panel);
    assert_eq!(b.logo_click_count, 4);
    b.logo_click(12_000);
    assert!(b.show_admin_panel);
    b.cancel();
    assert!(!b.show_admin_panel);
}

#[test]
fn default_admin_account_logs_in() {
    let t = now();
    let mut users = initial_users(t).unwrap();
    let admin = users.get_user("admin").unwrap();
    assert_eq!(admin.role, "admin");
    assert_eq!(admin.created_at, t);
    assert!(admin.last_login.is_none());
    assert!(admin.password_hash.starts_with("$2b$12$"));
    assert_eq!(admin.password_hash.len(), 60);
    assert_ne!(admin.password_hash, "Nexus");
    assert!(users.login("admin", "wrong", false, t).is_err());
    let resp = users.login("admin", "Nexus", false, t).unwrap();
    assert_eq!(resp.user.username, "admin");
    assert_eq!(resp.user.role, "admin");
    assert_eq!(resp.user.last_login, Some(t));
    assert_eq!(users.get_user("admin").unwrap().last_login, Some(t));
    let me = get_current_user(&resp.token).unwrap();
    assert_eq!((me.username.as_str(), me.role.as_str()), ("admin", "admin"));
}

#[test]
fn initial_store_from_a_hash() {
    assert!(initial_store(Err("no randomness".to_string()), 5).is_none());
    let s = initial_store(Ok("$2b$12$abc".to_string()), 5).unwrap();
    let admin = s.get_user("admin").unwrap();
    assert_eq!(admin.password_hash, "$2b$12$abc");
    assert_eq!((admin.role.as_str(), admin.created_at, admin.last_login), ("admin", 5, None));
    assert!(generate_token("anyone", "operator", 0).is_ok());
}
