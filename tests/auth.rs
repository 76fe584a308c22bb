use ytmp3::{AppMetadata, Auth, AuthData, AuthSession, Session, User, UserMetadata};

fn user() -> User {
    User {
        id: "user-1".to_string(),
        aud: "authenticated".to_string(),
        role: "authenticated".to_string(),
        email: "a@example.com".to_string(),
        email_confirmed_at: Some("2024-01-01T00:00:00Z".to_string()),
        phone: String::new(),
        confirmation_sent_at: None,
        confirmed_at: None,
        last_sign_in_at: Some("2024-02-01T00:00:00Z".to_string()),
        app_metadata: AppMetadata { provider: "email".to_string(), providers: vec!["email".to_string()] },
        user_metadata: UserMetadata {
            email: "a@example.com".to_string(),
            email_verified: true,
            phone_verified: false,
            sub: "user-1".to_string(),
        },
        identities: vec![],
        created_at: "2024-01-01T00:00:00Z".to_string(),
        updated_at: "2024-02-01T00:00:00Z".to_string(),
        is_anonymous: false,
    }
}

#[test]
fn session_is_kept_from_an_answer_with_one() {
    let auth = Auth {
        data: AuthData {
            user: Some(user()),
            session: Some(Session {
                access_token: "access".to_string(),
                token_type: "bearer".to_string(),
                expires_in: 3600,
                expires_at: 1_700_000_000,
                refresh_token: "refresh".to_string(),
                user: user(),
            }),
        },
        error: None,
    };
    let expected = AuthSession {
        user_id: "user-1".to_string(),
        access_token: "access".to_string(),
        refresh_token: "refresh".to_string(),
        email: "a@example.com".to_string(),
        role: "authenticated".to_string(),
        expires_at: 1_700_000_000,
        email_confirmed_at: Some("2024-01-01T00:00:00Z".to_string()),
        last_sign_in_at: Some("2024-02-01T00:00:00Z".to_string()),
        is_anonymous: false,
    };
    assert_eq!(Option::<AuthSession>::from(&auth), Some(expected.clone()));
    assert_eq!(Option::<AuthSession>::from(auth), Some(expected));
}

#[test]
fn no_session_without_one_in_the_answer() {
    let auth = Auth {
        data: AuthData { user: Some(user()), session: None },
        error: Some("Email not confirmed".to_string()),
    };
    assert_eq!(auth.session(), None);
    assert_eq!(Option::<AuthSession>::from(&auth), None);
}
