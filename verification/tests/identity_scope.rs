use meetingly::error::AuthError;
use meetingly::identity::{
    auth_finish_recording_scope, begin_operation_identity, begin_recording_identity,
    clear_recording_identity, current_operation_identity, display_error,
    ensure_organization_switching_allowed, finish_recording_identity_if_matches,
    recording_identity, require_clerk_org_id, require_current_clerk_org_id,
    require_current_operation_identity, require_current_user_id, require_operation_identity,
    require_user_id, reset_test_auth, retained_test_identity, set_current_session,
    set_test_session, AuthSession, AuthState, OperationIdentity,
};

fn session(user: &str, org: &str) -> AuthSession {
    AuthSession {
        user_id: user.to_string(),
        clerk_org_id: org.to_string(),
        expires_at: i64::MAX,
    }
}

#[test]
fn recording_identity_stays_bound_to_starting_organization() {
    let mut state = AuthState::new();
    clear_recording_identity(&mut state);
    set_current_session(&mut state, Some(session("user-a", "org-a")));
    let guard = begin_recording_identity(&mut state).unwrap();
    guard.commit();
    set_current_session(&mut state, Some(session("user-b", "org-b")));
    assert_eq!(require_clerk_org_id(&state).unwrap(), "org-a");
    assert_eq!(require_user_id(&state).unwrap(), "user-a");
    assert_eq!(require_current_clerk_org_id(&state).unwrap(), "org-b");
    assert!(auth_finish_recording_scope(&mut state).is_err());
    assert!(finish_recording_identity_if_matches(
        &mut state,
        &OperationIdentity::new("org-a", "user-a")
    ));
    assert_eq!(require_clerk_org_id(&state).unwrap(), "org-b");
    set_current_session(&mut state, None);
}

#[test]
fn recovery_releases_only_the_matching_recording_identity() {
    let mut state = AuthState::new();
    clear_recording_identity(&mut state);
    set_current_session(&mut state, Some(session("user-a", "org-a")));
    begin_recording_identity(&mut state).unwrap().commit();

    assert!(!finish_recording_identity_if_matches(
        &mut state,
        &OperationIdentity::new("org-a", "user-b")
    ));
    assert_eq!(
        recording_identity(&state),
        Some(OperationIdentity::new("org-a", "user-a"))
    );
    assert!(finish_recording_identity_if_matches(
        &mut state,
        &OperationIdentity::new("org-a", "user-a")
    ));
    assert_eq!(recording_identity(&state), None);
    set_current_session(&mut state, None);
}

#[test]
fn uncommitted_guard_releases_the_lock() {
    let mut state = AuthState::new();
    set_current_session(&mut state, Some(session("user-a", "org-a")));
    let guard = begin_operation_identity(&mut state).unwrap();
    assert_eq!(guard.identity(), &OperationIdentity::new("org-a", "user-a"));
    assert!(ensure_organization_switching_allowed(&state).is_err());
    guard.release(&mut state);
    assert_eq!(recording_identity(&state), None);
    assert!(ensure_organization_switching_allowed(&state).is_ok());
}

#[test]
fn second_recording_is_refused_while_locked() {
    let mut state = AuthState::new();
    set_current_session(&mut state, Some(session("user-a", "org-a")));
    begin_recording_identity(&mut state).unwrap().commit();
    set_current_session(&mut state, Some(session("user-b", "org-b")));
    assert!(matches!(
        begin_recording_identity(&mut state),
        Err(AuthError::RecordingAlreadyLocked)
    ));
    assert_eq!(
        retained_test_identity(&state),
        Some(OperationIdentity::new("org-a", "user-a"))
    );
}

#[test]
fn recording_needs_a_session() {
    let mut state = AuthState::new();
    assert!(matches!(
        begin_operation_identity(&mut state),
        Err(AuthError::SessionRequiredToRecord)
    ));
    assert_eq!(recording_identity(&state), None);
}

#[test]
fn requirements_fail_without_session() {
    let state = AuthState::new();
    assert!(matches!(require_clerk_org_id(&state), Err(AuthError::OrganizationRequired)));
    assert!(matches!(require_current_clerk_org_id(&state), Err(AuthError::OrganizationRequired)));
    assert!(matches!(require_user_id(&state), Err(AuthError::UserRequired)));
    assert!(matches!(require_current_user_id(&state), Err(AuthError::UserRequired)));
    assert!(matches!(require_operation_identity(&state), Err(AuthError::OrganizationRequired)));
    assert!(matches!(
        require_current_operation_identity(&state),
        Err(AuthError::OrganizationRequired)
    ));
    assert_eq!(current_operation_identity(&state), None);
}

#[test]
fn operation_identity_prefers_the_retained_recording() {
    let mut state = AuthState::new();
    set_test_session(&mut state, Some(OperationIdentity::new("org-a", "user-a")));
    begin_recording_identity(&mut state).unwrap().commit();
    set_test_session(&mut state, Some(OperationIdentity::new("org-b", "user-b")));
    assert_eq!(
        require_operation_identity(&state).unwrap(),
        OperationIdentity::new("org-a", "user-a")
    );
    assert_eq!(
        require_current_operation_identity(&state).unwrap(),
        OperationIdentity::new("org-b", "user-b")
    );
    reset_test_auth(&mut state);
    assert_eq!(recording_identity(&state), None);
    assert!(require_operation_identity(&state).is_err());
}

#[test]
fn owner_finishes_the_recording_scope() {
    let mut state = AuthState::new();
    set_test_session(&mut state, Some(OperationIdentity::new("org-a", "user-a")));
    begin_recording_identity(&mut state).unwrap().commit();
    assert!(auth_finish_recording_scope(&mut state).is_ok());
    assert_eq!(recording_identity(&state), None);
    assert!(matches!(
        auth_finish_recording_scope(&mut state),
        Err(AuthError::RecordingScopeMismatch)
    ));
}

#[test]
fn error_messages_match_the_user_facing_text() {
    assert_eq!(
        display_error(&AuthError::SwitchingBlocked),
        "Stop and finish saving the active recording before switching organizations or signing out."
    );
    assert_eq!(
        display_error(&AuthError::NotConfigured("MEETINGLY_CLERK_ISSUER".to_string())),
        "MEETINGLY_CLERK_ISSUER is not configured."
    );
    assert_eq!(
        display_error(&AuthError::SignInRejected("access_denied".to_string())),
        "Clerk rejected sign-in: access_denied"
    );
    assert_eq!(
        AuthError::OrganizationRequired.message(),
        "A Clerk organization is required."
    );
}
