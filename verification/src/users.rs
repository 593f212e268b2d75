use vstd::prelude::*;
use vstd::string::StrSliceExecFns;
use crate::credentials::{MAX_PASSWORD_CHARS, hash_password, password_verifies, verify_password};
use crate::errors::ServiceError;
use crate::store::{
    Store, User, active_user_index, find_active_user_index, has_active_user, user_name_taken,
    username_taken,
};
use crate::tokens::{TOKEN_VALIDITY_SECONDS, issue_token, jwt_claims, verify_token};

verus! {

/// The authenticated caller's resolved identity, produced by the auth
/// gate and consumed by the mutating operations. It never carries the
/// password hash.
#[derive(Debug)]
pub struct UserDetails {
    pub id: i32,
    pub username: String,
    pub real_name: String,
}

impl From<User> for UserDetails {
    fn from(user: User) -> (r: UserDetails) {
        UserDetails { id: user.id, username: user.username, real_name: user.real_name }
    }
}

impl vstd::std_specs::convert::FromSpecImpl<User> for UserDetails {
    open spec fn obeys_from_spec() -> bool {
        true
    }

    open spec fn from_spec(user: User) -> UserDetails {
        UserDetails { id: user.id, username: user.username, real_name: user.real_name }
    }
}

/// What a successful registration, login or refresh hands back: a signed
/// identity token together with who it names.
#[derive(Debug)]
pub struct AccessInfo {
    pub token: String,
    pub username: String,
    pub real_name: String,
}

/// The "Bearer " marker that an authorization header must open with.
pub open spec fn bearer_prefix() -> Seq<char> {
    seq!['B', 'e', 'a', 'r', 'e', 'r', ' ']
}

pub open spec fn is_bearer(h: Seq<char>) -> bool {
    h.len() >= 7 && h.subrange(0, 7) == bearer_prefix()
}

pub open spec fn bearer_rest(h: Seq<char>) -> Seq<char> {
    h.subrange(7, h.len() as int)
}

pub open spec fn opt_view(o: Option<&String>) -> Option<Seq<char>> {
    match o {
        Some(s) => Some(s@),
        None => None,
    }
}

/// The credential an incoming request carries: a bearer token from the
/// authorization header when one is present (a header without the marker
/// yields nothing — the cookie is a fallback only for an absent header),
/// else the token-bearing cookie's value, else nothing.
pub open spec fn cred_token(header: Option<Seq<char>>, cookie: Option<Seq<char>>) -> Option<
    Seq<char>,
> {
    match header {
        Some(h) => if is_bearer(h) {
            Some(bearer_rest(h))
        } else {
            None
        },
        None => cookie,
    }
}

/// Strip the "Bearer " marker off an authorization header value.
pub fn strip_bearer(header: &String) -> (r: Option<String>)
    ensures
        match r {
            Some(t) => is_bearer(header@) && t@ == bearer_rest(header@),
            None => !is_bearer(header@),
        },
{
    let h = header.as_str();
    let n = h.unicode_len();
    if n < 7 {
        return None;
    }
    if h.get_char(0) != 'B' || h.get_char(1) != 'e' || h.get_char(2) != 'a' || h.get_char(3) != 'r'
        || h.get_char(4) != 'e' || h.get_char(5) != 'r' || h.get_char(6) != ' ' {
        proof {
            if is_bearer(header@) {
                assert(forall|k: int|
                    0 <= k < 7 ==> header@.subrange(0, 7)[k] == #[trigger] header@[k]);
            }
        }
        return None;
    }
    let rest = h.substring_char(7, n);
    proof {
        assert(header@.subrange(0, 7) =~= bearer_prefix());
    }
    Some(rest.to_owned())
}

impl Store {
    /// Insert a user row under an already-computed password hash.
    ///
    /// Fails `Conflict` when some row, deleted or not, already carries
    /// the username (usernames are a unique key); on failure the store
    /// is unchanged.
    pub fn register_user_hashed(
        &mut self,
        username: String,
        email: String,
        real_name: String,
        summary: String,
        password_hash: String,
        now: u64,
    ) -> (r: Result<UserDetails, ServiceError>)
        requires
            old(self).wf(),
        ensures
            final(self).wf(),
            final(self).posts@ == old(self).posts@,
            final(self).likes@ == old(self).likes@,
            final(self).attachments@ == old(self).attachments@,
            ({
                let users0 = old(self).users@;
                if username_taken(users0, username@) {
                    &&& r == Err::<UserDetails, ServiceError>(ServiceError::Conflict)
                    &&& final(self).users@ == users0
                } else if users0.len() >= i32::MAX {
                    &&& r == Err::<UserDetails, ServiceError>(ServiceError::StorageUnavailable)
                    &&& final(self).users@ == users0
                } else {
                    let nu = User {
                        id: (users0.len() + 1) as i32,
                        username: username,
                        email: email,
                        real_name: real_name,
                        summary: summary,
                        password: password_hash,
                        created_at: now,
                        deleted: false,
                    };
                    &&& final(self).users@ == users0.push(nu)
                    &&& r matches Ok(d) && d.id == nu.id && d.username@ == username@
                        && d.real_name@ == real_name@
                }
            }),
    {
        if user_name_taken(&self.users, &username) {
            return Err(ServiceError::Conflict);
        }
        if self.users.len() >= i32::MAX as usize {
            return Err(ServiceError::StorageUnavailable);
        }
        let new_id = (self.users.len() as i32) + 1;
        let details = UserDetails {
            id: new_id,
            username: username.clone(),
            real_name: real_name.clone(),
        };
        let nu = User {
            id: new_id,
            username,
            email,
            real_name,
            summary,
            password: password_hash,
            created_at: now,
            deleted: false,
        };
        self.users.push(nu);
        proof {
            assert(self.users@ =~= old(self).users@.push(self.users@.last()));
        }
        Ok(details)
    }

    /// Register a new account: hash the password with the credential
    /// verifier, insert the user row, and issue an identity token, as the
    /// login endpoint would.
    ///
    /// Succeeds on every fresh username (with an ordinarily sized
    /// password, below capacity); fails `Conflict` when the username is
    /// already carried by some row, and `CryptoFailure` only for a
    /// password too large to hash.
    pub fn register_user(
        &mut self,
        username: String,
        email: String,
        real_name: String,
        summary: String,
        password: &String,
        secret: &String,
        now: u64,
    ) -> (r: Result<AccessInfo, ServiceError>)
        requires
            old(self).wf(),
            now + TOKEN_VALIDITY_SECONDS <= u64::MAX,
        ensures
            final(self).wf(),
            final(self).posts@ == old(self).posts@,
            final(self).likes@ == old(self).likes@,
            final(self).attachments@ == old(self).attachments@,
            ({
                let users0 = old(self).users@;
                let inserted = {
                    &&& final(self).users@.len() == users0.len() + 1
                    &&& final(self).users@.subrange(0, users0.len() as int) == users0
                    &&& ({
                        let nu = final(self).users@.last();
                        &&& nu.id == users0.len() + 1
                        &&& nu.username@ == username@
                        &&& nu.email@ == email@
                        &&& nu.real_name@ == real_name@
                        &&& nu.summary@ == summary@
                        &&& password_verifies(password@, nu.password@)
                        &&& nu.created_at == now
                        &&& !nu.deleted
                    })
                };
                &&& (r matches Ok(ai) ==> {
                    &&& !username_taken(users0, username@)
                    &&& inserted
                    &&& jwt_claims(ai.token@, secret@) == Some(
                        (username@, (now + TOKEN_VALIDITY_SECONDS) as u64),
                    )
                    &&& ai.username@ == username@
                    &&& ai.real_name@ == real_name@
                })
                &&& (!username_taken(users0, username@) && users0.len() < i32::MAX
                    && password@.len() <= MAX_PASSWORD_CHARS ==> r is Ok)
                &&& (r == Err::<AccessInfo, ServiceError>(ServiceError::Conflict) ==> username_taken(
                    users0,
                    username@,
                ) && final(self).users@ == users0)
                &&& (r == Err::<AccessInfo, ServiceError>(ServiceError::StorageUnavailable)
                    ==> final(self).users@ == users0)
                &&& (r == Err::<AccessInfo, ServiceError>(ServiceError::CryptoFailure)
                    ==> password@.len() > MAX_PASSWORD_CHARS && final(self).users@ == users0)
                &&& (r matches Err(e) ==> e == ServiceError::Conflict
                    || e == ServiceError::StorageUnavailable || e == ServiceError::CryptoFailure)
            }),
    {
        let hashed = match hash_password(password) {
            Some(h) => h,
            None => {
                return Err(ServiceError::CryptoFailure);
            },
        };
        let token_name = username.clone();
        let details = match self.register_user_hashed(
            username,
            email,
            real_name,
            summary,
            hashed,
            now,
        ) {
            Ok(d) => d,
            Err(e) => {
                return Err(e);
            },
        };
        proof {
            assert(self.users@.subrange(0, old(self).users@.len() as int) =~= old(self).users@);
        }
        let token = issue_token(&token_name, secret, now);
        Ok(AccessInfo { token, username: details.username, real_name: details.real_name })
    }

    /// Authenticate a username and password and issue an identity token.
    ///
    /// Succeeds exactly on the right credentials; fails
    /// `Unauthenticated` — indistinguishably — for an unknown username, a
    /// soft-deleted account, and a wrong password.
    pub fn login(&self, username: &String, password: &String, secret: &String, now: u64) -> (r:
        Result<AccessInfo, ServiceError>)
        requires
            self.wf(),
            now + TOKEN_VALIDITY_SECONDS <= u64::MAX,
        ensures
            ({
                let users0 = self.users@;
                let authorized = has_active_user(users0, username@) && password_verifies(
                    password@,
                    users0[active_user_index(users0, username@)].password@,
                );
                &&& (r matches Ok(ai) <==> authorized)
                &&& (r matches Ok(ai) ==> {
                    &&& jwt_claims(ai.token@, secret@) == Some(
                        (username@, (now + TOKEN_VALIDITY_SECONDS) as u64),
                    )
                    &&& ai.username@ == username@
                    &&& ai.real_name@ == users0[active_user_index(users0, username@)].real_name@
                })
                &&& (r matches Err(e) ==> e == ServiceError::Unauthenticated)
            }),
    {
        let ui = match find_active_user_index(&self.users, username) {
            Some(ui) => ui,
            None => {
                return Err(ServiceError::Unauthenticated);
            },
        };
        let user = &self.users[ui];
        if !verify_password(password, &user.password) {
            return Err(ServiceError::Unauthenticated);
        }
        let token = issue_token(&user.username, secret, now);
        Ok(AccessInfo {
            token,
            username: user.username.clone(),
            real_name: user.real_name.clone(),
        })
    }

    /// The auth gate: resolve a request's credential into the identity of
    /// a non-deleted user.
    ///
    /// The credential is the bearer token of the authorization header
    /// when that header is present, else the token-bearing cookie's
    /// value. A missing credential, a malformed or mis-signed token, an
    /// expiry not after `now`, and a subject that is unknown or
    /// soft-deleted all fail `Unauthenticated`, indistinguishably.
    pub fn authenticate(
        &self,
        auth_header: Option<&String>,
        cookie: Option<&String>,
        secret: &String,
        now: u64,
    ) -> (r: Result<UserDetails, ServiceError>)
        requires
            self.wf(),
        ensures
            ({
                let users0 = self.users@;
                match cred_token(opt_view(auth_header), opt_view(cookie)) {
                    None => r == Err::<UserDetails, ServiceError>(ServiceError::Unauthenticated),
                    Some(t) => match jwt_claims(t, secret@) {
                        None => r == Err::<UserDetails, ServiceError>(
                            ServiceError::Unauthenticated,
                        ),
                        Some(c) => if c.1 <= now || !has_active_user(users0, c.0) {
                            r == Err::<UserDetails, ServiceError>(ServiceError::Unauthenticated)
                        } else {
                            let u = users0[active_user_index(users0, c.0)];
                            r matches Ok(d) && d.id == u.id && d.username@ == u.username@
                                && d.real_name@ == u.real_name@
                        },
                    },
                }
            }),
    {
        let token: String = match auth_header {
            Some(h) => match strip_bearer(h) {
                Some(t) => t,
                None => {
                    return Err(ServiceError::Unauthenticated);
                },
            },
            None => match cookie {
                Some(c) => c.clone(),
                None => {
                    return Err(ServiceError::Unauthenticated);
                },
            },
        };
        let sub = match verify_token(&token, secret, now) {
            Ok(s) => s,
            Err(_) => {
                return Err(ServiceError::Unauthenticated);
            },
        };
        let ui = match find_active_user_index(&self.users, &sub) {
            Some(ui) => ui,
            None => {
                return Err(ServiceError::Unauthenticated);
            },
        };
        let u = &self.users[ui];
        Ok(UserDetails { id: u.id, username: u.username.clone(), real_name: u.real_name.clone() })
    }

    /// Soft-delete the non-deleted user named `username`: the row stays,
    /// but the account no longer authenticates.
    pub fn soft_delete_user(&mut self, username: &String) -> (r: Result<(), ServiceError>)
        requires
            old(self).wf(),
        ensures
            final(self).wf(),
            final(self).posts@ == old(self).posts@,
            final(self).likes@ == old(self).likes@,
            final(self).attachments@ == old(self).attachments@,
            ({
                let users0 = old(self).users@;
                if !has_active_user(users0, username@) {
                    &&& r == Err::<(), ServiceError>(ServiceError::NotFound)
                    &&& final(self).users@ == users0
                } else {
                    let ui = active_user_index(users0, username@);
                    &&& r == Ok::<(), ServiceError>(())
                    &&& final(self).users@ == users0.update(ui, User { deleted: true, ..users0[ui] })
                }
            }),
    {
        let ui = match find_active_user_index(&self.users, username) {
            Some(ui) => ui,
            None => {
                return Err(ServiceError::NotFound);
            },
        };
        let u = &self.users[ui];
        let removed = User {
            id: u.id,
            username: u.username.clone(),
            email: u.email.clone(),
            real_name: u.real_name.clone(),
            summary: u.summary.clone(),
            password: u.password.clone(),
            created_at: u.created_at,
            deleted: true,
        };
        self.users[ui] = removed;
        proof {
            let users0 = old(self).users@;
            let ui_ = ui as int;
            assert(self.users@ =~= users0.update(ui_, User { deleted: true, ..users0[ui_] }));
        }
        Ok(())
    }
}

/// Issue a fresh identity token for an already-authenticated caller,
/// extending the session without another password check. Cannot fail.
pub fn refresh_access(current_user: &UserDetails, secret: &String, now: u64) -> (r: AccessInfo)
    requires
        now + TOKEN_VALIDITY_SECONDS <= u64::MAX,
    ensures
        jwt_claims(r.token@, secret@) == Some(
            (current_user.username@, (now + TOKEN_VALIDITY_SECONDS) as u64),
        ),
        r.username@ == current_user.username@,
        r.real_name@ == current_user.real_name@,
{
    let token = issue_token(&current_user.username, secret, now);
    AccessInfo {
        token,
        username: current_user.username.clone(),
        real_name: current_user.real_name.clone(),
    }
}

} // verus!
