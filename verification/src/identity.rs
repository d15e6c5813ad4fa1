use vstd::prelude::*;

use crate::error::AuthError;

verus! {

/// The organization and user an operation is attributed to, as sequences of characters.
pub struct IdentityView {
    pub clerk_org_id: Seq<char>,
    pub user_id: Seq<char>,
}

/// A verified Clerk session, as sequences of characters.
pub struct SessionView {
    pub user_id: Seq<char>,
    pub clerk_org_id: Seq<char>,
    pub expires_at: i64,
}

/// A sign-in that waits for its OAuth callback.
pub struct PendingView {
    pub state: Seq<char>,
    pub verifier: Seq<char>,
}

/// The whole authentication state: the verified session, the pending sign-in and
/// the identity that a retained recording is bound to.
pub struct AuthStateView {
    pub session: Option<SessionView>,
    pub pending: Option<PendingView>,
    pub recording: Option<IdentityView>,
}

/// The organization and user that an operation (a recording, a sync) belongs to.
#[derive(Debug)]
pub struct OperationIdentity {
    pub clerk_org_id: String,
    pub user_id: String,
}

impl View for OperationIdentity {
    type V = IdentityView;

    open spec fn view(&self) -> IdentityView {
        IdentityView { clerk_org_id: self.clerk_org_id@, user_id: self.user_id@ }
    }
}

impl Clone for OperationIdentity {
    fn clone(&self) -> (copy: Self)
        ensures
            copy@ == self@,
    {
        OperationIdentity { clerk_org_id: self.clerk_org_id.clone(), user_id: self.user_id.clone() }
    }
}

impl PartialEq for OperationIdentity {
    fn eq(&self, other: &Self) -> (same: bool) {
        self.clerk_org_id == other.clerk_org_id && self.user_id == other.user_id
    }
}

impl vstd::std_specs::cmp::PartialEqSpecImpl for OperationIdentity {
    open spec fn obeys_eq_spec() -> bool {
        true
    }

    open spec fn eq_spec(&self, other: &OperationIdentity) -> bool {
        self@ == other@
    }
}

impl Eq for OperationIdentity {
}

impl OperationIdentity {
    /// An identity for the given organization and user.
    pub fn new(clerk_org_id: &str, user_id: &str) -> (identity: Self)
        ensures
            identity@ == (IdentityView { clerk_org_id: clerk_org_id@, user_id: user_id@ }),
    {
        OperationIdentity {
            clerk_org_id: String::from_str(clerk_org_id),
            user_id: String::from_str(user_id),
        }
    }
}

/// A verified Clerk session.
#[derive(Debug)]
pub struct AuthSession {
    pub user_id: String,
    pub clerk_org_id: String,
    pub expires_at: i64,
}

impl View for AuthSession {
    type V = SessionView;

    open spec fn view(&self) -> SessionView {
        SessionView {
            user_id: self.user_id@,
            clerk_org_id: self.clerk_org_id@,
            expires_at: self.expires_at,
        }
    }
}

impl Clone for AuthSession {
    fn clone(&self) -> (copy: Self)
        ensures
            copy@ == self@,
    {
        AuthSession {
            user_id: self.user_id.clone(),
            clerk_org_id: self.clerk_org_id.clone(),
            expires_at: self.expires_at,
        }
    }
}

/// The state and PKCE verifier of a sign-in that waits for its callback.
#[derive(Debug)]
pub struct PendingAuthorization {
    pub state: String,
    pub verifier: String,
}

impl View for PendingAuthorization {
    type V = PendingView;

    open spec fn view(&self) -> PendingView {
        PendingView { state: self.state@, verifier: self.verifier@ }
    }
}

pub open spec fn session_opt_view(s: Option<AuthSession>) -> Option<SessionView> {
    match s {
        Some(s) => Some(s@),
        None => None,
    }
}

pub open spec fn identity_opt_view(i: Option<OperationIdentity>) -> Option<IdentityView> {
    match i {
        Some(i) => Some(i@),
        None => None,
    }
}

pub open spec fn pending_opt_view(p: Option<PendingAuthorization>) -> Option<PendingView> {
    match p {
        Some(p) => Some(p@),
        None => None,
    }
}

/// The identity of a session: its organization and its user.
pub open spec fn session_identity(s: SessionView) -> IdentityView {
    IdentityView { clerk_org_id: s.clerk_org_id, user_id: s.user_id }
}

/// The authentication state of the client.
pub struct AuthState {
    current_session: Option<AuthSession>,
    pending: Option<PendingAuthorization>,
    recording_identity: Option<OperationIdentity>,
}

impl View for AuthState {
    type V = AuthStateView;

    closed spec fn view(&self) -> AuthStateView {
        AuthStateView {
            session: session_opt_view(self.current_session),
            pending: pending_opt_view(self.pending),
            recording: identity_opt_view(self.recording_identity),
        }
    }
}

impl AuthState {
    /// No session, no pending sign-in, no retained recording.
    pub fn new() -> (state: Self)
        ensures
            state@ == (AuthStateView { session: None, pending: None, recording: None }),
    {
        AuthState { current_session: None, pending: None, recording_identity: None }
    }

    /// Replaces the pending sign-in.
    pub fn set_pending(&mut self, pending: Option<PendingAuthorization>)
        ensures
            final(self)@ == (AuthStateView { pending: pending_opt_view(pending), ..old(self)@ }),
    {
        self.pending = pending;
    }

    /// Removes the pending sign-in and hands it back.
    pub fn take_pending(&mut self) -> (taken: Option<PendingAuthorization>)
        ensures
            pending_opt_view(taken) == old(self)@.pending,
            final(self)@ == (AuthStateView { pending: None, ..old(self)@ }),
    {
        let taken = self.pending.take();
        taken
    }
}

// ---------------------------------------------------------------------------------
// What each operation does to the state, stated over views.
// ---------------------------------------------------------------------------------
/// The state after the session is replaced.
pub open spec fn with_session(v: AuthStateView, s: Option<SessionView>) -> AuthStateView {
    AuthStateView { session: s, ..v }
}

/// The state after the retained recording identity is released.
pub open spec fn without_recording(v: AuthStateView) -> AuthStateView {
    AuthStateView { recording: None, ..v }
}

/// The identity of the current session, if there is one.
pub open spec fn current_identity(v: AuthStateView) -> Option<IdentityView> {
    match v.session {
        Some(s) => Some(session_identity(s)),
        None => None,
    }
}

/// The identity an operation is attributed to: the retained recording's, else the session's.
pub open spec fn operation_identity(v: AuthStateView) -> Option<IdentityView> {
    match v.recording {
        Some(i) => Some(i),
        None => current_identity(v),
    }
}

/// The organization an operation is attributed to.
pub open spec fn attributed_org(v: AuthStateView) -> Result<Seq<char>, AuthError> {
    match operation_identity(v) {
        Some(i) => Ok(i.clerk_org_id),
        None => Err(AuthError::OrganizationRequired),
    }
}

/// The organization of the current session.
pub open spec fn current_org(v: AuthStateView) -> Result<Seq<char>, AuthError> {
    match v.session {
        Some(s) => Ok(s.clerk_org_id),
        None => Err(AuthError::OrganizationRequired),
    }
}

/// The user an operation is attributed to.
pub open spec fn attributed_user(v: AuthStateView) -> Result<Seq<char>, AuthError> {
    match operation_identity(v) {
        Some(i) => Ok(i.user_id),
        None => Err(AuthError::UserRequired),
    }
}

/// The user of the current session.
pub open spec fn current_user(v: AuthStateView) -> Result<Seq<char>, AuthError> {
    match v.session {
        Some(s) => Ok(s.user_id),
        None => Err(AuthError::UserRequired),
    }
}

/// Whether a recording may start: `Ok` with the identity it binds, else the refusal.
pub open spec fn begin_outcome(v: AuthStateView) -> Result<IdentityView, AuthError> {
    match v.session {
        None => Err(AuthError::SessionRequiredToRecord),
        Some(s) => if v.recording is Some {
            Err(AuthError::RecordingAlreadyLocked)
        } else {
            Ok(session_identity(s))
        },
    }
}

/// The state after an attempt to start a recording.
pub open spec fn after_begin(v: AuthStateView) -> AuthStateView {
    match begin_outcome(v) {
        Ok(i) => AuthStateView { recording: Some(i), ..v },
        Err(_) => v,
    }
}

/// Whether the organization or the user may change now.
pub open spec fn switching_outcome(v: AuthStateView) -> Result<(), AuthError> {
    if v.recording is Some {
        Err(AuthError::SwitchingBlocked)
    } else {
        Ok(())
    }
}

/// Whether the retained recording belongs to `identity`.
pub open spec fn retained_matches(v: AuthStateView, identity: IdentityView) -> bool {
    v.recording == Some(identity)
}

/// The state after a release that is conditioned on `identity`.
pub open spec fn after_finish_if_matches(v: AuthStateView, identity: IdentityView) -> AuthStateView {
    if retained_matches(v, identity) {
        without_recording(v)
    } else {
        v
    }
}

/// Whether the current user may end the retained recording scope.
pub open spec fn finish_scope_outcome(v: AuthStateView) -> Result<(), AuthError> {
    match current_identity(v) {
        None => Err(AuthError::OrganizationRequired),
        Some(i) => if retained_matches(v, i) {
            Ok(())
        } else {
            Err(AuthError::RecordingScopeMismatch)
        },
    }
}

/// The state after the current user tries to end the retained recording scope.
pub open spec fn after_finish_scope(v: AuthStateView) -> AuthStateView {
    match current_identity(v) {
        None => v,
        Some(i) => after_finish_if_matches(v, i),
    }
}

pub open spec fn identity_result_view(r: Result<OperationIdentity, AuthError>) -> Result<
    IdentityView,
    AuthError,
> {
    match r {
        Ok(i) => Ok(i@),
        Err(e) => Err(e),
    }
}

pub open spec fn string_result_view(r: Result<String, AuthError>) -> Result<Seq<char>, AuthError> {
    match r {
        Ok(s) => Ok(s@),
        Err(e) => Err(e),
    }
}

// ---------------------------------------------------------------------------------
// The recording guard.
// ---------------------------------------------------------------------------------
/// What a recording guard holds.
pub struct GuardView {
    pub identity: IdentityView,
}

/// Holds the organization lock of a recording that is being started.  The guard is
/// consumed either by `commit`, which keeps the lock, or by `release`, which is what
/// dropping it uncommitted does.
pub struct RecordingIdentityGuard {
    identity: OperationIdentity,
}

impl View for RecordingIdentityGuard {
    type V = GuardView;

    closed spec fn view(&self) -> GuardView {
        GuardView { identity: self.identity@ }
    }
}

impl RecordingIdentityGuard {
    /// The identity the recording is bound to.
    pub fn identity(&self) -> (identity: &OperationIdentity)
        ensures
            identity@ == self@.identity,
    {
        &self.identity
    }

    /// Keeps the lock: the recording stays bound to its identity after the guard is gone.
    pub fn commit(self) {
    }

    /// What dropping an uncommitted guard does: it releases the recording lock.
    pub fn release(self, state: &mut AuthState)
        ensures
            final(state)@ == without_recording(old(state)@),
    {
        clear_recording_identity(state);
    }
}

// ---------------------------------------------------------------------------------
// Operations on the state.
// ---------------------------------------------------------------------------------
/// The current verified session.
pub fn current_session(state: &AuthState) -> (session: Option<AuthSession>)
    ensures
        session_opt_view(session) == state@.session,
{
    match &state.current_session {
        Some(s) => Some(s.clone()),
        None => None,
    }
}

/// Replaces the current session.
pub fn set_current_session(state: &mut AuthState, session: Option<AuthSession>)
    ensures
        final(state)@ == with_session(old(state)@, session_opt_view(session)),
{
    state.current_session = session;
}

/// The identity a retained recording is bound to.
pub fn recording_identity(state: &AuthState) -> (identity: Option<OperationIdentity>)
    ensures
        identity_opt_view(identity) == state@.recording,
{
    match &state.recording_identity {
        Some(i) => Some(i.clone()),
        None => None,
    }
}

/// The identity of the current session.
pub fn current_operation_identity(state: &AuthState) -> (identity: Option<OperationIdentity>)
    ensures
        identity_opt_view(identity) == current_identity(state@),
{
    match &state.current_session {
        Some(s) => Some(
            OperationIdentity { clerk_org_id: s.clerk_org_id.clone(), user_id: s.user_id.clone() },
        ),
        None => None,
    }
}

/// Releases the retained recording identity, whoever it belongs to.
pub fn clear_recording_identity(state: &mut AuthState)
    ensures
        final(state)@ == without_recording(old(state)@),
{
    state.recording_identity = None;
}

/// The organization of the operation: the retained recording's, else the session's.
pub fn require_clerk_org_id(state: &AuthState) -> (org: Result<String, AuthError>)
    ensures
        string_result_view(org) == attributed_org(state@),
{
    if let Some(identity) = recording_identity(state) {
        return Ok(identity.clerk_org_id);
    }
    require_current_clerk_org_id(state)
}

/// The organization of the current session.
pub fn require_current_clerk_org_id(state: &AuthState) -> (org: Result<String, AuthError>)
    ensures
        string_result_view(org) == current_org(state@),
{
    match current_session(state) {
        Some(session) => Ok(session.clerk_org_id),
        None => Err(AuthError::OrganizationRequired),
    }
}

/// The user of the operation: the retained recording's, else the session's.
pub fn require_user_id(state: &AuthState) -> (user: Result<String, AuthError>)
    ensures
        string_result_view(user) == attributed_user(state@),
{
    if let Some(identity) = recording_identity(state) {
        return Ok(identity.user_id);
    }
    require_current_user_id(state)
}

/// The user of the current session.
pub fn require_current_user_id(state: &AuthState) -> (user: Result<String, AuthError>)
    ensures
        string_result_view(user) == current_user(state@),
{
    match current_session(state) {
        Some(session) => Ok(session.user_id),
        None => Err(AuthError::UserRequired),
    }
}

/// Binds a recording to the current session's identity; see `begin_operation_identity`.
pub fn begin_recording_identity(state: &mut AuthState) -> (guard: Result<
    RecordingIdentityGuard,
    AuthError,
>)
    ensures
        final(state)@ == after_begin(old(state)@),
        match (guard, begin_outcome(old(state)@)) {
            (Ok(g), Ok(i)) => g@ == (GuardView { identity: i }),
            (Err(e), Err(f)) => e == f,
            _ => false,
        },
{
    begin_operation_identity(state)
}

/// Binds an operation to the current session's identity.  Fails without a session,
/// and while another operation holds the lock; the state is then unchanged.
pub fn begin_operation_identity(state: &mut AuthState) -> (guard: Result<
    RecordingIdentityGuard,
    AuthError,
>)
    ensures
        final(state)@ == after_begin(old(state)@),
        match (guard, begin_outcome(old(state)@)) {
            (Ok(g), Ok(i)) => g@ == (GuardView { identity: i }),
            (Err(e), Err(f)) => e == f,
            _ => false,
        },
{
    let session = match current_session(state) {
        Some(s) => s,
        None => return Err(AuthError::SessionRequiredToRecord),
    };
    let identity = OperationIdentity { clerk_org_id: session.clerk_org_id, user_id: session.user_id };
    if state.recording_identity.is_some() {
        return Err(AuthError::RecordingAlreadyLocked);
    }
    state.recording_identity = Some(identity.clone());
    Ok(RecordingIdentityGuard { identity })
}

/// The identity of the operation: the retained recording's, else the session's.
pub fn require_operation_identity(state: &AuthState) -> (identity: Result<
    OperationIdentity,
    AuthError,
>)
    ensures
        identity_result_view(identity) == match operation_identity(state@) {
            Some(i) => Ok(i),
            None => Err(AuthError::OrganizationRequired),
        },
{
    match recording_identity(state) {
        Some(identity) => Ok(identity),
        None => match current_operation_identity(state) {
            Some(identity) => Ok(identity),
            None => Err(AuthError::OrganizationRequired),
        },
    }
}

/// The identity of the current session.
pub fn require_current_operation_identity(state: &AuthState) -> (identity: Result<
    OperationIdentity,
    AuthError,
>)
    ensures
        identity_result_view(identity) == match current_identity(state@) {
            Some(i) => Ok(i),
            None => Err(AuthError::OrganizationRequired),
        },
{
    match current_operation_identity(state) {
        Some(identity) => Ok(identity),
        None => Err(AuthError::OrganizationRequired),
    }
}

/// Releases the retained recording only when it belongs to `identity`; reports whether it did.
pub fn finish_recording_identity_if_matches(
    state: &mut AuthState,
    identity: &OperationIdentity,
) -> (released: bool)
    ensures
        released == retained_matches(old(state)@, identity@),
        final(state)@ == after_finish_if_matches(old(state)@, identity@),
{
    let matches = match &state.recording_identity {
        Some(retained) => retained.clerk_org_id == identity.clerk_org_id && retained.user_id
            == identity.user_id,
        None => false,
    };
    if !matches {
        return false;
    }
    state.recording_identity = None;
    true
}

/// Refuses while a retained recording is bound to an organization.
pub fn ensure_organization_switching_allowed(state: &AuthState) -> (allowed: Result<(), AuthError>)
    ensures
        allowed == switching_outcome(state@),
{
    if state.recording_identity.is_some() {
        Err(AuthError::SwitchingBlocked)
    } else {
        Ok(())
    }
}

/// Ends the retained recording scope on behalf of the current session's identity.
pub fn auth_finish_recording_scope(state: &mut AuthState) -> (finished: Result<(), AuthError>)
    ensures
        finished == finish_scope_outcome(old(state)@),
        final(state)@ == after_finish_scope(old(state)@),
{
    let identity = require_current_operation_identity(state)?;
    if finish_recording_identity_if_matches(state, &identity) {
        Ok(())
    } else {
        Err(AuthError::RecordingScopeMismatch)
    }
}

/// Installs a session for the given identity that never expires, or none.
pub fn set_test_session(state: &mut AuthState, identity: Option<OperationIdentity>)
    ensures
        final(state)@ == with_session(
            old(state)@,
            match identity {
                Some(i) => Some(
                    SessionView {
                        user_id: i@.user_id,
                        clerk_org_id: i@.clerk_org_id,
                        expires_at: i64::MAX,
                    },
                ),
                None => None,
            },
        ),
{
    let session = match identity {
        Some(i) => Some(
            AuthSession { user_id: i.user_id, clerk_org_id: i.clerk_org_id, expires_at: i64::MAX },
        ),
        None => None,
    };
    set_current_session(state, session);
}

/// The identity a retained recording is bound to.
pub fn retained_test_identity(state: &AuthState) -> (identity: Option<OperationIdentity>)
    ensures
        identity_opt_view(identity) == state@.recording,
{
    recording_identity(state)
}

/// Drops the retained recording and the session.
pub fn reset_test_auth(state: &mut AuthState)
    ensures
        final(state)@ == with_session(without_recording(old(state)@), None),
{
    clear_recording_identity(state);
    set_current_session(state, None);
}

/// The user-facing text of an error.
pub fn display_error(error: &AuthError) -> (text: String)
    ensures
        text@ == crate::error::auth_error_text(*error),
{
    error.message()
}

} // verus!
