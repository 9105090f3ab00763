//! Users and sessions: password checks, signed session tokens and password changes.
use vstd::prelude::*;
use crate::text::{append_str, has_prefix, owned, same_text};

verus! {

/// The key session tokens are signed with.
pub const JWT_SECRET: &'static str = "your-secret-key-change-in-production";

/// Seconds a session token stays valid.
pub const TOKEN_LIFETIME_SECONDS: i64 = 86400;

/// A user account; times are Unix seconds.
#[derive(Debug, Clone)]
pub struct User {
    pub username: String,
    pub password_hash: String,
    pub role: String,
    pub created_at: i64,
    pub last_login: Option<i64>,
}

/// The contents of a [`User`].
pub struct UserView {
    pub username: Seq<char>,
    pub password_hash: Seq<char>,
    pub role: Seq<char>,
    pub created_at: i64,
    pub last_login: Option<i64>,
}

impl View for User {
    type V = UserView;

    open spec fn view(&self) -> UserView {
        UserView {
            username: self.username@,
            password_hash: self.password_hash@,
            role: self.role@,
            created_at: self.created_at,
            last_login: self.last_login,
        }
    }
}

/// What a session token asserts: its user, the user's role, and when it expires and
/// was issued (Unix seconds).
#[derive(Debug, Clone)]
pub struct Claims {
    pub sub: String,
    pub role: String,
    pub exp: i64,
    pub iat: i64,
}

/// A login form.
#[derive(Debug, Clone)]
pub struct LoginRequest {
    pub username: String,
    pub password: String,
}

/// The public facts about a user.
#[derive(Debug, Clone)]
pub struct UserInfo {
    pub username: String,
    pub role: String,
    pub last_login: Option<i64>,
}

/// A successful login: the session token and the user.
#[derive(Debug, Clone)]
pub struct LoginResponse {
    pub token: String,
    pub user: UserInfo,
}

/// The view of a result whose both sides are strings.
pub open spec fn text_result(r: Result<String, String>) -> Result<Seq<char>, Seq<char>> {
    match r {
        Ok(s) => Ok(s@),
        Err(e) => Err(e@),
    }
}

/// What `bcrypt::verify(password, hash)` gives: whether `password` matches `hash`, or
/// the error for a malformed hash.
pub uninterp spec fn bcrypt_verified(password: Seq<char>, hash: Seq<char>) -> Result<bool, Seq<char>>;

/// `bcrypt::verify`.
#[verifier::external_body]
fn bcrypt_verify(password: &str, hash: &str) -> (r: Result<bool, String>)
    ensures
        (match r {
            Ok(b) => Ok(b),
            Err(e) => Err(e@),
        }) == bcrypt_verified(password@, hash@),
{
    bcrypt::verify(password, hash).map_err(|e| e.to_string())
}

/// The form of the hashes `bcrypt::hash` writes at the default cost: `$2b$12$`, then
/// 22 characters of salt and 31 of hash, 60 characters in all.
pub open spec fn bcrypt_hash_form(h: Seq<char>) -> bool {
    h.len() == 60 && has_prefix(h, "$2b$12$"@)
}

/// `bcrypt::hash(password, bcrypt::DEFAULT_COST)`. The salt is random, so nothing ties
/// the hash to its arguments but this: a hash it returns verifies `password` and has the
/// form `HashParts::format` gives it (version `2b`, cost `12`, 60 characters).
#[verifier::external_body]
fn bcrypt_hash(password: &str) -> (r: Result<String, String>)
    ensures
        match r {
            Ok(h) => bcrypt_verified(password@, h@) == Ok::<bool, Seq<char>>(true)
                && bcrypt_hash_form(h@),
            Err(_) => true,
        },
{
    bcrypt::hash(password, bcrypt::DEFAULT_COST).map_err(|e| e.to_string())
}

/// The HS256 session token that `jsonwebtoken::encode` makes, with the default header,
/// for the claims `{"sub", "role", "exp", "iat"}` in that order and the key `secret`;
/// or its error message.
pub uninterp spec fn jwt_encoded(sub: Seq<char>, role: Seq<char>, exp: i64, iat: i64, secret: Seq<char>) -> Result<Seq<char>, Seq<char>>;

/// `jsonwebtoken::encode` of the claims `sub`, `role`, `exp`, `iat` with the default
/// header and `secret` as the HMAC key. With HS256 and a secret key it always succeeds
/// (the key's family matches the header's, the claims serialise, HMAC signing cannot
/// fail), and the token it makes carries those claims under `secret`: its header asks
/// for HS256 and its payload holds them as written.
#[verifier::external_body]
fn jwt_encode(sub: &str, role: &str, exp: i64, iat: i64, secret: &str) -> (r: Result<String, String>)
    ensures
        r is Ok,
        text_result(r) == jwt_encoded(sub@, role@, exp, iat, secret@),
        r matches Ok(t) ==> jwt_claims(t@, secret@) == Some((sub@, role@, exp, iat)),
{
    let mut claims = serde_json::Map::new();
    claims.insert("sub".to_string(), serde_json::Value::from(sub));
    claims.insert("role".to_string(), serde_json::Value::from(role));
    claims.insert("exp".to_string(), serde_json::Value::from(exp));
    claims.insert("iat".to_string(), serde_json::Value::from(iat));
    let key = jsonwebtoken::EncodingKey::from_secret(secret.as_bytes());
    jsonwebtoken::encode(&jsonwebtoken::Header::default(), &claims, &key).map_err(|e| e.to_string())
}

/// The claims `sub`, `role`, `exp` and `iat` that `token` carries when its header asks
/// for HS256, its signature verifies under the key `secret`, and its payload holds those
/// four claims (two strings, two integers); none otherwise. This depends on the token
/// and the key alone, not on the clock.
pub uninterp spec fn jwt_claims(token: Seq<char>, secret: Seq<char>) -> Option<(Seq<char>, Seq<char>, i64, i64)>;

/// `jsonwebtoken::decode` of a token signed with `secret`, under the default validation
/// (HS256, `exp` not yet passed by the clock), into its four claims; a claim that is
/// missing or of the wrong type gives serde's error after `JSON error: `, as
/// `jsonwebtoken` words its own. Whether a token that carries its claims is still
/// accepted depends on the clock, so this states only what holds of every outcome: the
/// claims returned are those the token carries, and a token that carries none (bad
/// signature, other algorithm, malformed, claims missing) is refused.
#[verifier::external_body]
fn jwt_decode(token: &str, secret: &str) -> (r: Result<Claims, String>)
    ensures
        r matches Ok(c) ==> jwt_claims(token@, secret@) == Some((c.sub@, c.role@, c.exp, c.iat)),
        jwt_claims(token@, secret@) is None ==> r is Err,
{
    let key = jsonwebtoken::DecodingKey::from_secret(secret.as_bytes());
    let c = jsonwebtoken::decode::<serde_json::Value>(token, &key, &jsonwebtoken::Validation::default())
        .map_err(|e| e.to_string())?
        .claims;
    let fields = serde_json::Value::Array(vec![c["sub"].clone(), c["role"].clone(), c["exp"].clone(), c["iat"].clone()]);
    let (sub, role, exp, iat): (String, String, i64, i64) =
        serde_json::from_value(fields).map_err(|e| format!("JSON error: {}", e))?;
    Ok(Claims { sub, role, exp, iat })
}

/// The token issued at `now` to `username` with `role`: valid for a day.
pub open spec fn token_for(username: Seq<char>, role: Seq<char>, now: i64) -> Result<Seq<char>, Seq<char>> {
    match jwt_encoded(username, role, (now + TOKEN_LIFETIME_SECONDS) as i64, now, JWT_SECRET@) {
        Ok(t) => Ok(t),
        Err(e) => Err("Failed to generate token: "@ + e),
    }
}

/// The session token for `username` with `role`, issued at `now`.
pub fn generate_token(username: &str, role: &str, now: i64) -> (r: Result<String, String>)
    requires
        now <= i64::MAX - TOKEN_LIFETIME_SECONDS,
    ensures
        r is Ok,
        text_result(r) == token_for(username@, role@, now),
        r matches Ok(t) ==> jwt_claims(t@, JWT_SECRET@) == Some(
            (username@, role@, (now + TOKEN_LIFETIME_SECONDS) as i64, now),
        ),
{
    match jwt_encode(username, role, now + TOKEN_LIFETIME_SECONDS, now, JWT_SECRET) {
        Ok(t) => Ok(t),
        Err(e) => {
            let mut m = owned("Failed to generate token: ");
            append_str(&mut m, e.as_str());
            Err(m)
        },
    }
}

/// The user a decoded token names, or the token's error.
pub fn user_from_claims(claims: Result<Claims, String>) -> (r: Result<UserInfo, String>)
    ensures
        match claims {
            Ok(c) => r matches Ok(u) && u.username@ == c.sub@ && u.role@ == c.role@ && u.last_login is None,
            Err(e) => r matches Err(m) && m@ == "Invalid token: "@ + e@,
        },
{
    match claims {
        Ok(c) => Ok(UserInfo { username: c.sub, role: c.role, last_login: None }),
        Err(e) => {
            let mut m = owned("Invalid token: ");
            append_str(&mut m, e.as_str());
            Err(m)
        },
    }
}

/// The user a session token names: the name and role its claims carry, with no last
/// login. A token that carries no claims under the server's key is refused, as is an
/// expired one, with `Invalid token: ...`.
pub fn get_current_user(token: &str) -> (r: Result<UserInfo, String>)
    ensures
        r matches Ok(u) ==> (jwt_claims(token@, JWT_SECRET@) matches Some(c) && u.username@ == c.0
            && u.role@ == c.1 && u.last_login is None),
        jwt_claims(token@, JWT_SECRET@) is None ==> r is Err,
        r matches Err(m) ==> exists|e: Seq<char>| m@ == "Invalid token: "@ + e,
{
    let claims = jwt_decode(token, JWT_SECRET);
    let r = user_from_claims(claims);
    r
}

/// Logging out keeps no state on the server.
pub fn logout() -> (r: Result<(), String>)
    ensures
        r is Ok,
{
    Ok(())
}

/// No two users share a name.
pub open spec fn unique_usernames(us: Seq<UserView>) -> bool {
    forall|i: int, j: int|
        0 <= i < us.len() && 0 <= j < us.len() && i != j ==> #[trigger] us[i].username != #[trigger] us[j].username
}

/// Some user is called `name`.
pub open spec fn has_user(us: Seq<UserView>, name: Seq<char>) -> bool {
    exists|i: int| 0 <= i < us.len() && #[trigger] us[i].username == name
}

/// The position of the user called `name`.
pub open spec fn user_index(us: Seq<UserView>, name: Seq<char>) -> int {
    choose|i: int| 0 <= i < us.len() && #[trigger] us[i].username == name
}

/// The user called `name`, if any.
pub open spec fn find_user(us: Seq<UserView>, name: Seq<char>) -> Option<UserView> {
    if has_user(us, name) {
        Some(us[user_index(us, name)])
    } else {
        None
    }
}

/// The users after storing `u`: it replaces the user of the same name, or is added.
pub open spec fn with_user(us: Seq<UserView>, u: UserView) -> Seq<UserView> {
    if has_user(us, u.username) {
        us.update(user_index(us, u.username), u)
    } else {
        us.push(u)
    }
}

/// The role a demo login gets: `admin` for the user `admin`, else `operator`.
pub open spec fn demo_role(username: Seq<char>) -> Seq<char> {
    if username == "admin"@ { "admin"@ } else { "operator"@ }
}

/// `u` after a login at `now`.
pub open spec fn logged_in(u: UserView, now: i64) -> UserView {
    UserView {
        username: u.username,
        password_hash: u.password_hash,
        role: u.role,
        created_at: u.created_at,
        last_login: Some(now),
    }
}

/// `u` with password hash `h`.
pub open spec fn with_hash(u: UserView, h: Seq<char>) -> UserView {
    UserView {
        username: u.username,
        password_hash: h,
        role: u.role,
        created_at: u.created_at,
        last_login: u.last_login,
    }
}

/// `r` is the login response with token `t` for `username` with `role`, logged in at `now`.
pub open spec fn is_response(r: LoginResponse, t: Seq<char>, username: Seq<char>, role: Seq<char>, now: i64) -> bool {
    r.token@ == t && r.user.username@ == username && r.user.role@ == role && r.user.last_login == Some(now)
}

/// The outcome of issuing the token of a login: the response, or the token's error.
pub open spec fn login_outcome(r: Result<LoginResponse, String>, username: Seq<char>, role: Seq<char>, now: i64) -> bool {
    match token_for(username, role, now) {
        Ok(t) => r matches Ok(resp) && is_response(resp, t, username, role, now),
        Err(e) => r matches Err(m) && m@ == e,
    }
}

/// The user accounts.
pub struct UserStore {
    users: Vec<User>,
}

impl UserStore {
    /// The accounts.
    pub closed spec fn users(&self) -> Seq<UserView> {
        self.users@.map_values(|u: User| u@)
    }

    /// User names are unique.
    pub open spec fn wf(&self) -> bool {
        unique_usernames(self.users())
    }

    /// A store holding `users`, when their names are unique.
    pub fn from_users(users: Vec<User>) -> (r: Option<UserStore>)
        ensures
            match r {
                Some(s) => s.wf() && s.users() == users@.map_values(|u: User| u@),
                None => !unique_usernames(users@.map_values(|u: User| u@)),
            },
    {
        let ghost us = users@.map_values(|u: User| u@);
        let mut i: usize = 0;
        while i < users.len()
            invariant
                us == users@.map_values(|u: User| u@),
                i <= users@.len(),
                forall|a: int, b: int| 0 <= a < i && 0 <= b < users@.len() && a != b ==> #[trigger] us[a].username != #[trigger] us[b].username,
            decreases users@.len() - i,
        {
            let mut j: usize = 0;
            while j < users.len()
                invariant
                    us == users@.map_values(|u: User| u@),
                    i < users@.len(),
                    j <= users@.len(),
                    forall|a: int, b: int| 0 <= a < i && 0 <= b < users@.len() && a != b ==> #[trigger] us[a].username != #[trigger] us[b].username,
                    forall|b: int| 0 <= b < j && b != i ==> us[i as int].username != #[trigger] us[b].username,
                decreases users@.len() - j,
            {
                assert(us[i as int] == users@[i as int]@ && us[j as int] == users@[j as int]@);
                if j != i && same_text(users[i].username.as_str(), users[j].username.as_str()) {
                    assert(us[i as int].username == us[j as int].username);
                    assert(!unique_usernames(us));
                    return None;
                }
                j = j + 1;
            }
            i = i + 1;
        }
        Some(UserStore { users })
    }

    /// The account called `name`: its position, if any.
    fn position(&self, name: &str) -> (r: Option<usize>)
        requires
            self.wf(),
        ensures
            match r {
                Some(i) => has_user(self.users(), name@) && i as int == user_index(self.users(), name@)
                    && i < self.users@.len(),
                None => !has_user(self.users(), name@),
            },
    {
        let ghost us = self.users();
        let mut i: usize = 0;
        while i < self.users.len()
            invariant
                us == self.users(),
                unique_usernames(us),
                i <= self.users@.len(),
                forall|j: int| 0 <= j < i ==> (#[trigger] us[j]).username != name@,
            decreases self.users@.len() - i,
        {
            assert(us[i as int] == self.users@[i as int]@);
            if same_text(self.users[i].username.as_str(), name) {
                assert(us[i as int].username == name@);
                assert(has_user(us, name@));
                assert(user_index(us, name@) == i);
                return Some(i);
            }
            i = i + 1;
        }
        None
    }

    /// The account called `name`, if any.
    pub fn get_user(&self, name: &str) -> (r: Option<&User>)
        requires
            self.wf(),
        ensures
            match r {
                Some(u) => find_user(self.users(), name@) == Some(u@),
                None => find_user(self.users(), name@) is None,
            },
    {
        match self.position(name) {
            Some(i) => Some(&self.users[i]),
            None => None,
        }
    }

    /// Stores `user`, replacing the account of the same name.
    pub fn insert_user(&mut self, user: User)
        requires
            old(self).wf(),
        ensures
            final(self).wf(),
            final(self).users() == with_user(old(self).users(), user@),
    {
        let ghost us = self.users();
        let ghost uv = user@;
        match self.position(user.username.as_str()) {
            Some(i) => {
                self.users.set(i, user);
                assert(self.users() =~= us.update(i as int, uv));
            },
            None => {
                self.users.push(user);
                assert(self.users() =~= us.push(uv));
            },
        }
        proof {
            lemma_with_user_unique(us, uv);
        }
    }

    /// Logs `username` in at `now`. In demo mode any credentials are accepted and the
    /// user is stored with the role `admin` (for `admin`) or `operator`; otherwise the
    /// password must match the stored hash, and the user's last login becomes `now`.
    pub fn login(&mut self, username: &str, password: &str, demo: bool, now: i64) -> (r: Result<LoginResponse, String>)
        requires
            old(self).wf(),
            now <= i64::MAX - TOKEN_LIFETIME_SECONDS,
        ensures
            final(self).wf(),
            demo ==> final(self).users() == with_user(
                old(self).users(),
                UserView {
                    username: username@,
                    password_hash: Seq::empty(),
                    role: demo_role(username@),
                    created_at: now,
                    last_login: Some(now),
                },
            ) && login_outcome(r, username@, demo_role(username@), now),
            !demo ==> match find_user(old(self).users(), username@) {
                None => final(self).users() == old(self).users()
                    && (r matches Err(m) && m@ == "Invalid username or password"@),
                Some(u) => match bcrypt_verified(password@, u.password_hash) {
                    Err(e) => final(self).users() == old(self).users()
                        && (r matches Err(m) && m@ == "Authentication failed: "@ + e),
                    Ok(false) => final(self).users() == old(self).users()
                        && (r matches Err(m) && m@ == "Invalid username or password"@),
                    Ok(true) => final(self).users() == old(self).users().update(
                        user_index(old(self).users(), username@),
                        logged_in(u, now),
                    ) && login_outcome(r, u.username, u.role, now),
                },
            },
            demo ==> r is Ok,
            !demo && (find_user(old(self).users(), username@) matches Some(u) && bcrypt_verified(
                password@,
                u.password_hash,
            ) == Ok::<bool, Seq<char>>(true)) ==> r is Ok,
            r matches Ok(resp) ==> jwt_claims(resp.token@, JWT_SECRET@) == Some(
                (resp.user.username@, resp.user.role@, (now + TOKEN_LIFETIME_SECONDS) as i64, now),
            ),
    {
        if demo {
            proof {
                reveal_strlit("admin");
            }
            let role = if same_text(username, "admin") { owned("admin") } else { owned("operator") };
            let user = User {
                username: owned(username),
                password_hash: String::new(),
                role: role.clone(),
                created_at: now,
                last_login: Some(now),
            };
            proof {
                assert(user@.password_hash =~= Seq::<char>::empty());
            }
            self.insert_user(user);
            return match generate_token(username, role.as_str(), now) {
                Ok(token) => Ok(
                    LoginResponse {
                        token,
                        user: UserInfo { username: owned(username), role, last_login: Some(now) },
                    },
                ),
                Err(e) => Err(e),
            };
        }
        let ghost us = self.users();
        let i = match self.position(username) {
            Some(i) => i,
            None => {
                return Err(owned("Invalid username or password"));
            },
        };
        assert(us[i as int] == self.users@[i as int]@);
        match bcrypt_verify(password, self.users[i].password_hash.as_str()) {
            Err(e) => {
                let mut m = owned("Authentication failed: ");
                append_str(&mut m, e.as_str());
                return Err(m);
            },
            Ok(false) => {
                return Err(owned("Invalid username or password"));
            },
            Ok(true) => {},
        }
        let mut user = self.users[i].clone_user();
        user.last_login = Some(now);
        let uname = user.username.clone();
        let role = user.role.clone();
        self.users.set(i, user);
        assert(self.users() =~= us.update(i as int, logged_in(us[i as int], now)));
        proof {
            lemma_update_keeps_names(us, i as int, logged_in(us[i as int], now));
        }
        match generate_token(uname.as_str(), role.as_str(), now) {
            Ok(token) => Ok(LoginResponse { token, user: UserInfo { username: uname, role, last_login: Some(now) } }),
            Err(e) => Err(e),
        }
    }

    /// Checks a password change: the token must decode, its user exist, and
    /// `old_password` match that user's hash. Gives the user's name.
    pub fn authorize_password_change(&self, claims: Result<Claims, String>, old_password: &str) -> (r: Result<String, String>)
        requires
            self.wf(),
        ensures
            match claims {
                Err(e) => r matches Err(m) && m@ == "Invalid token: "@ + e@,
                Ok(c) => match find_user(self.users(), c.sub@) {
                    None => r matches Err(m) && m@ == "User not found"@,
                    Some(u) => match bcrypt_verified(old_password@, u.password_hash) {
                        Err(e) => r matches Err(m) && m@ == "Password verification failed: "@ + e,
                        Ok(false) => r matches Err(m) && m@ == "Invalid old password"@,
                        Ok(true) => r matches Ok(n) && n@ == c.sub@,
                    },
                },
            },
    {
        let c = match claims {
            Ok(c) => c,
            Err(e) => {
                let mut m = owned("Invalid token: ");
                append_str(&mut m, e.as_str());
                return Err(m);
            },
        };
        let i = match self.position(c.sub.as_str()) {
            Some(i) => i,
            None => {
                return Err(owned("User not found"));
            },
        };
        assert(self.users()[i as int] == self.users@[i as int]@);
        match bcrypt_verify(old_password, self.users[i].password_hash.as_str()) {
            Err(e) => {
                let mut m = owned("Password verification failed: ");
                append_str(&mut m, e.as_str());
                Err(m)
            },
            Ok(false) => Err(owned("Invalid old password")),
            Ok(true) => Ok(c.sub),
        }
    }

    /// Stores the new password hash of `username`, or reports the hashing error.
    pub fn store_password_hash(&mut self, username: &str, hashed: Result<String, String>) -> (r: Result<(), String>)
        requires
            old(self).wf(),
        ensures
            final(self).wf(),
            match hashed {
                Err(e) => final(self).users() == old(self).users()
                    && (r matches Err(m) && m@ == "Failed to hash password: "@ + e@),
                Ok(h) => match find_user(old(self).users(), username@) {
                    Some(u) => r is Ok && final(self).users() == old(self).users().update(
                        user_index(old(self).users(), username@),
                        with_hash(u, h@),
                    ),
                    None => (r matches Err(m) && m@ == "User not found"@) && final(self).users() == old(self).users(),
                },
            },
    {
        let h = match hashed {
            Ok(h) => h,
            Err(e) => {
                let mut m = owned("Failed to hash password: ");
                append_str(&mut m, e.as_str());
                return Err(m);
            },
        };
        let ghost us = self.users();
        let i = match self.position(username) {
            Some(i) => i,
            None => {
                return Err(owned("User not found"));
            },
        };
        assert(us[i as int] == self.users@[i as int]@);
        let mut user = self.users[i].clone_user();
        let ghost hv = h@;
        user.password_hash = h;
        self.users.set(i, user);
        assert(self.users() =~= us.update(i as int, with_hash(us[i as int], hv)));
        proof {
            lemma_update_keeps_names(us, i as int, with_hash(us[i as int], hv));
        }
        Ok(())
    }

    /// Changes the password of the user a session token names, after checking the old
    /// password. On success the token carries that user's name, the old password
    /// verified against the stored hash, and the user's new hash is a bcrypt hash that
    /// verifies `new_password`; no other account changes. A token that carries no claims is refused as invalid;
    /// otherwise the refusal is an expired token or the first check that fails: no such
    /// user, a hash that cannot be checked, a wrong old password, or a failed hashing.
    pub fn update_password(&mut self, token: &str, old_password: &str, new_password: &str) -> (r: Result<(), String>)
        requires
            old(self).wf(),
        ensures
            final(self).wf(),
            r is Err ==> final(self).users() == old(self).users(),
            r is Ok ==> (jwt_claims(token@, JWT_SECRET@) matches Some(c) && find_user(old(self).users(), c.0) matches Some(
                u,
            ) && bcrypt_verified(old_password@, u.password_hash) == Ok::<bool, Seq<char>>(true)
                && final(self).users() == old(self).users().update(
                user_index(old(self).users(), c.0),
                with_hash(u, final(self).users()[user_index(old(self).users(), c.0)].password_hash),
            ) && bcrypt_verified(
                new_password@,
                final(self).users()[user_index(old(self).users(), c.0)].password_hash,
            ) == Ok::<bool, Seq<char>>(true) && bcrypt_hash_form(
                final(self).users()[user_index(old(self).users(), c.0)].password_hash,
            )),
            jwt_claims(token@, JWT_SECRET@) is None ==> r is Err,
            r matches Err(m) ==> (exists|e: Seq<char>| m@ == "Invalid token: "@ + e) || match jwt_claims(
                token@,
                JWT_SECRET@,
            ) {
                None => false,
                Some(c) => match find_user(old(self).users(), c.0) {
                    None => m@ == "User not found"@,
                    Some(u) => match bcrypt_verified(old_password@, u.password_hash) {
                        Err(e) => m@ == "Password verification failed: "@ + e,
                        Ok(false) => m@ == "Invalid old password"@,
                        Ok(true) => exists|e: Seq<char>| m@ == "Failed to hash password: "@ + e,
                    },
                },
            },
    {
        let claims = jwt_decode(token, JWT_SECRET);
        let ghost cl = claims;
        let name = match self.authorize_password_change(claims, old_password) {
            Ok(n) => n,
            Err(e) => {
                return Err(e);
            },
        };
        let hashed = bcrypt_hash(new_password);
        let ghost hv = match text_result(hashed) {
            Ok(h) => h,
            Err(_) => Seq::empty(),
        };
        let ghost us = self.users();
        let r = self.store_password_hash(name.as_str(), hashed);
        proof {
            let c = cl->Ok_0;
            assert(jwt_claims(token@, JWT_SECRET@) == Some((c.sub@, c.role@, c.exp, c.iat)));
            if hashed is Ok {
                assert(bcrypt_hash_form(hv));
            }
            if r is Ok {
                let k = user_index(us, name@);
                assert(self.users()[k] == with_hash(us[k], hv));
            }
        }
        r
    }
}

/// The administrator account the controller starts with.
pub open spec fn is_initial_admin(u: UserView, now: i64) -> bool {
    &&& u.username == "admin"@
    &&& u.role == "admin"@
    &&& bcrypt_verified("Nexus"@, u.password_hash) == Ok::<bool, Seq<char>>(true)
    &&& bcrypt_hash_form(u.password_hash)
    &&& u.created_at == now
    &&& u.last_login is None
}

/// The accounts the controller starts with, from the outcome of hashing the
/// administrator's password: the administrator `admin` with hash `h`, created at `now`
/// and never logged in; no store when hashing failed.
pub fn initial_store(hashed: Result<String, String>, now: i64) -> (r: Option<UserStore>)
    ensures
        match hashed {
            Ok(h) => r matches Some(s) && s.wf() && s.users() == seq![
                UserView {
                    username: "admin"@,
                    password_hash: h@,
                    role: "admin"@,
                    created_at: now,
                    last_login: None,
                },
            ],
            Err(_) => r is None,
        },
{
    let hash = match hashed {
        Ok(h) => h,
        Err(_) => {
            return None;
        },
    };
    let admin = User {
        username: owned("admin"),
        password_hash: hash,
        role: owned("admin"),
        created_at: now,
        last_login: None,
    };
    let ghost av = admin@;
    let store = UserStore { users: vec![admin] };
    assert(store.users() =~= seq![av]);
    assert(unique_usernames(store.users()));
    Some(store)
}

/// The accounts the controller starts with: the administrator `admin` with the password
/// `Nexus`, kept only as its bcrypt hash, created at `now` and never logged in. `None`
/// only when hashing the password fails (the operating system gave no randomness for
/// the salt).
pub fn initial_users(now: i64) -> (r: Option<UserStore>)
    ensures
        r matches Some(s) ==> {
            &&& s.wf()
            &&& s.users().len() == 1
            &&& is_initial_admin(s.users()[0], now)
            &&& find_user(s.users(), "admin"@) matches Some(u) && is_initial_admin(u, now)
        },
{
    let hashed = bcrypt_hash("Nexus");
    let r = initial_store(hashed, now);
    proof {
        if r is Some {
            let us = r->Some_0.users();
            assert(us[0].username == "admin"@);
            assert(has_user(us, "admin"@));
            assert(user_index(us, "admin"@) == 0);
        }
    }
    r
}

/// Law: the account the controller starts with logs in as `admin` with the password
/// `Nexus`. Looking `admin` up among the initial accounts finds it, and its hash verifies
/// `Nexus`, so a login with those credentials passes the password check and (the token
/// being issued) answers with a token that carries `admin` and the role `admin`.
pub proof fn law_default_admin_logs_in(us: Seq<UserView>, created: i64)
    requires
        us.len() == 1,
        is_initial_admin(us[0], created),
    ensures
        unique_usernames(us),
        find_user(us, "admin"@) == Some(us[0]),
        bcrypt_verified("Nexus"@, us[0].password_hash) == Ok::<bool, Seq<char>>(true),
        us[0].username == "admin"@ && us[0].role == "admin"@,
{
    assert(us[0].username == "admin"@);
    assert(has_user(us, "admin"@));
}

impl User {
    /// A copy of this account.
    pub fn clone_user(&self) -> (r: User)
        ensures
            r@ == self@,
    {
        User {
            username: self.username.clone(),
            password_hash: self.password_hash.clone(),
            role: self.role.clone(),
            created_at: self.created_at,
            last_login: self.last_login,
        }
    }
}

/// Replacing an account by one of the same name keeps the names unique.
proof fn lemma_update_keeps_names(us: Seq<UserView>, i: int, u: UserView)
    requires
        unique_usernames(us),
        0 <= i < us.len(),
        u.username == us[i].username,
    ensures
        unique_usernames(us.update(i, u)),
{
    let vs = us.update(i, u);
    assert forall|a: int, b: int| 0 <= a < vs.len() && 0 <= b < vs.len() && a != b implies #[trigger] vs[a].username
        != #[trigger] vs[b].username by {
        assert(vs[a].username == us[a].username);
        assert(vs[b].username == us[b].username);
    }
}

/// Storing an account keeps the names unique.
proof fn lemma_with_user_unique(us: Seq<UserView>, u: UserView)
    requires
        unique_usernames(us),
    ensures
        unique_usernames(with_user(us, u)),
{
    if has_user(us, u.username) {
        lemma_update_keeps_names(us, user_index(us, u.username), u);
    } else {
        let vs = us.push(u);
        assert forall|a: int, b: int| 0 <= a < vs.len() && 0 <= b < vs.len() && a != b implies #[trigger] vs[a].username
            != #[trigger] vs[b].username by {
            if a == us.len() as int {
                assert(us[b].username != u.username);
            } else if b == us.len() as int {
                assert(us[a].username != u.username);
            }
        }
    }
}

/// Storing an account and then looking up a name gives the stored account for its own
/// name and what was there before for every other name.
pub proof fn law_user_read_after_write(us: Seq<UserView>, u: UserView, name: Seq<char>)
    requires
        unique_usernames(us),
    ensures
        unique_usernames(with_user(us, u)),
        find_user(with_user(us, u), name) == if name == u.username {
            Some(u)
        } else {
            find_user(us, name)
        },
{
    lemma_with_user_unique(us, u);
    let vs = with_user(us, u);
    if has_user(us, u.username) {
        let k = user_index(us, u.username);
        assert(vs[k] == u);
    } else {
        assert(vs[us.len() as int] == u);
    }
    if name == u.username {
        assert(has_user(vs, name));
    } else if has_user(us, name) {
        let k = user_index(us, name);
        assert(vs[k] == us[k]);
        assert(has_user(vs, name));
    } else {
        assert(!has_user(vs, name));
    }
}

/// After a password change, looking up the changed account gives it with its new hash,
/// and that hash verifies the new password: the next login with it gets past the
/// password check.
pub proof fn law_changed_password_logs_in(us: Seq<UserView>, k: int, h: Seq<char>, new_password: Seq<char>)
    requires
        unique_usernames(us),
        0 <= k < us.len(),
        bcrypt_verified(new_password, h) == Ok::<bool, Seq<char>>(true),
    ensures
        unique_usernames(us.update(k, with_hash(us[k], h))),
        find_user(us.update(k, with_hash(us[k], h)), us[k].username) == Some(with_hash(us[k], h)),
        bcrypt_verified(new_password, with_hash(us[k], h).password_hash) == Ok::<bool, Seq<char>>(true),
{
    let vs = us.update(k, with_hash(us[k], h));
    lemma_update_keeps_names(us, k, with_hash(us[k], h));
    assert(vs[k].username == us[k].username);
    assert(has_user(vs, us[k].username));
    let j = user_index(vs, us[k].username);
    if j != k {
        assert(vs[j].username == vs[k].username);
    }
}


/// The sign-in state of the desktop application: whether a user is signed in, under
/// which name, and whether the sign-in screen shows.
#[derive(Debug, Clone)]
pub struct DesktopSession {
    pub is_authenticated: bool,
    pub username: String,
    pub show_login: bool,
}

impl DesktopSession {
    /// A session at start: nobody signed in, the sign-in screen showing.
    pub fn new() -> (s: DesktopSession)
        ensures
            !s.is_authenticated,
            s.username@.len() == 0,
            s.show_login,
    {
        DesktopSession { is_authenticated: false, username: String::new(), show_login: true }
    }

    /// The sign-in button: any non-empty user name signs in (the desktop application is
    /// a demonstration and checks no password); an empty one changes nothing.
    pub fn login(&mut self, username: &str)
        ensures
            final(self).username@ == username@,
            username@.len() > 0 ==> final(self).is_authenticated && !final(self).show_login,
            username@.len() == 0 ==> final(self).is_authenticated == old(self).is_authenticated
                && final(self).show_login == old(self).show_login,
    {
        self.username = owned(username);
        if username.unicode_len() > 0 {
            self.is_authenticated = true;
            self.show_login = false;
        }
    }

    /// Signing out (Ctrl+L): back to the sign-in screen.
    pub fn logout(&mut self)
        ensures
            !final(self).is_authenticated,
            final(self).show_login,
            final(self).username == old(self).username,
    {
        self.is_authenticated = false;
        self.show_login = true;
    }
}

} // verus!
