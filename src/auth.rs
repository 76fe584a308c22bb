//! Records of the identity service's sign-in answer, and the compact session
//! kept for a signed-in user.
use vstd::prelude::*;

verus! {

/// The identity service's answer to a sign-in or sign-up.
#[derive(Debug, Clone, PartialEq)]
pub struct Auth {
    pub data: AuthData,
    pub error: Option<String>,
}

#[derive(Debug, Clone, PartialEq)]
pub struct AuthData {
    pub user: Option<User>,
    pub session: Option<Session>,
}

#[derive(Debug, Clone, PartialEq)]
pub struct User {
    pub id: String,
    pub aud: String,
    pub role: String,
    pub email: String,
    pub email_confirmed_at: Option<String>,
    pub phone: String,
    pub confirmation_sent_at: Option<String>,
    pub confirmed_at: Option<String>,
    pub last_sign_in_at: Option<String>,
    pub app_metadata: AppMetadata,
    pub user_metadata: UserMetadata,
    pub identities: Vec<Identity>,
    pub created_at: String,
    pub updated_at: String,
    pub is_anonymous: bool,
}

#[derive(Debug, Clone, PartialEq)]
pub struct Session {
    pub access_token: String,
    pub token_type: String,
    pub expires_in: u32,
    pub expires_at: i64,
    pub refresh_token: String,
    pub user: User,
}

#[derive(Debug, Clone, PartialEq)]
pub struct Identity {
    pub identity_id: String,
    pub id: String,
    pub user_id: String,
    pub identity_data: IdentityData,
    pub provider: String,
    pub last_sign_in_at: String,
    pub created_at: String,
    pub updated_at: String,
    pub email: String,
}

#[derive(Debug, Clone, PartialEq)]
pub struct IdentityData {
    pub email: String,
    pub email_verified: bool,
    pub phone_verified: bool,
    pub sub: String,
}

#[derive(Debug, Clone, PartialEq, Eq)]
pub struct UserMetadata {
    pub email: String,
    pub email_verified: bool,
    pub phone_verified: bool,
    pub sub: String,
}

#[derive(Debug, Clone, PartialEq, Eq)]
pub struct AppMetadata {
    pub provider: String,
    pub providers: Vec<String>,
}

/// The part of a session that is kept between visits.
#[derive(Debug, Clone, PartialEq, Eq)]
pub struct AuthSession {
    pub user_id: String,
    pub access_token: String,
    pub refresh_token: String,
    pub email: String,
    pub role: String,
    pub expires_at: i64,
    pub email_confirmed_at: Option<String>,
    pub last_sign_in_at: Option<String>,
    pub is_anonymous: bool,
}

/// The kept session of `auth`: present exactly when the answer carries a
/// session, with the tokens of that session and the details of its user.
pub open spec fn session_of(auth: &Auth) -> Option<AuthSession> {
    match auth.data.session {
        None => None,
        Some(s) => Some(
            AuthSession {
                user_id: s.user.id,
                access_token: s.access_token,
                refresh_token: s.refresh_token,
                email: s.user.email,
                role: s.user.role,
                expires_at: s.expires_at,
                email_confirmed_at: s.user.email_confirmed_at,
                last_sign_in_at: s.user.last_sign_in_at,
                is_anonymous: s.user.is_anonymous,
            },
        ),
    }
}

fn clone_opt(s: &Option<String>) -> (r: Option<String>)
    ensures
        r == *s,
{
    match s {
        Some(t) => Some(t.clone()),
        None => None,
    }
}

impl Auth {
    /// The session to keep for this answer, if it carries one.
    pub fn session(&self) -> (r: Option<AuthSession>)
        ensures
            r == session_of(self),
    {
        match &self.data.session {
            None => None,
            Some(session) => {
                let user = &session.user;
                Some(
                    AuthSession {
                        user_id: user.id.clone(),
                        access_token: session.access_token.clone(),
                        refresh_token: session.refresh_token.clone(),
                        email: user.email.clone(),
                        role: user.role.clone(),
                        expires_at: session.expires_at,
                        email_confirmed_at: clone_opt(&user.email_confirmed_at),
                        last_sign_in_at: clone_opt(&user.last_sign_in_at),
                        is_anonymous: user.is_anonymous,
                    },
                )
            },
        }
    }
}

impl<'a> From<&'a Auth> for Option<AuthSession> {
    fn from(auth: &'a Auth) -> (r: Option<AuthSession>) {
        auth.session()
    }
}

impl<'a> vstd::std_specs::convert::FromSpecImpl<&'a Auth> for Option<AuthSession> {
    open spec fn obeys_from_spec() -> bool {
        true
    }

    open spec fn from_spec(auth: &'a Auth) -> Option<AuthSession> {
        session_of(auth)
    }
}

impl From<Auth> for Option<AuthSession> {
    fn from(auth: Auth) -> (r: Option<AuthSession>) {
        auth.session()
    }
}

impl vstd::std_specs::convert::FromSpecImpl<Auth> for Option<AuthSession> {
    open spec fn obeys_from_spec() -> bool {
        true
    }

    open spec fn from_spec(auth: Auth) -> Option<AuthSession> {
        session_of(&auth)
    }
}

} // verus!
