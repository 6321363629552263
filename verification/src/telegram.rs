//! The session with the messaging service: its life from a blob on disk to
//! an authenticated handle, as events and the actions that answer them, and
//! the decisions of the polling loop that follows.
//!
//! Nothing here touches the network or the disk. The caller performs each
//! action and reports what came of it as the next event.

use vstd::prelude::*;
use vstd::string::*;
use crate::text::{trim, trimmed};

verus! {

/// The seconds to wait for one update before polling again.
pub const POLL_TIMEOUT_SECONDS: u64 = 10;

/// The seconds to pause after a transport error before polling again.
pub const RETRY_DELAY_SECONDS: u64 = 1;

/// The credentials of one account and the place of its session blob.
pub struct TelegramClient {
    api_id: i32,
    api_hash: String,
    phone_number: String,
    session_path: String,
}

/// Why a session did not come to be authenticated.
#[derive(Debug, Clone, Copy, PartialEq, Eq, Structural)]
pub enum SessionFailure {
    /// The directory or the blob of a new session could not be written.
    Persistence,
    /// The handshake with the service failed.
    Connect,
    /// The login code could not be requested, or the code or the second
    /// factor was refused.
    Auth,
    /// An event arrived that the state does not await.
    Unexpected,
}

/// Where the session stands.
#[derive(Debug, Clone, Copy, PartialEq, Eq, Structural)]
pub enum SessionState {
    /// Nothing is known of the blob yet.
    NoSession,
    /// A blob exists and is being loaded.
    Loading,
    /// No usable blob: the parent directory is being ensured.
    PreparingDirectory,
    /// The parent directory is there: write permission is being probed.
    ProbingWrite,
    /// A fresh session is being persisted.
    PersistingNew,
    /// The session was loaded from its blob; the handshake is under way.
    SessionLoaded,
    /// The session was created and persisted; the handshake is under way.
    SessionCreated,
    /// Connected, not known to be authorized.
    Unauthenticated,
    /// A login code was requested; the code is awaited.
    AwaitingCode,
    /// The code was accepted; the second factor is awaited.
    AwaitingSecondFactor,
    /// The handle is authenticated.
    Authenticated,
    /// The attempt ended without an authenticated handle.
    Failed(SessionFailure),
}

/// What the service answered to a submitted login code.
#[derive(Debug, Clone, Copy, PartialEq, Eq, Structural)]
pub enum SignInOutcome {
    Accepted,
    PasswordRequired,
    Rejected,
}

/// What came of the last action.
#[derive(Debug, Clone, Copy, PartialEq, Eq, Structural)]
pub enum SessionEvent {
    /// Whether a blob exists at the configured path.
    BlobProbed(bool),
    /// Whether the blob could be loaded.
    BlobLoaded(bool),
    /// Whether the parent directory exists now.
    DirectoryEnsured(bool),
    /// Whether the probe file could be written.
    WriteProbed(bool),
    /// Whether the fresh session was persisted.
    NewSessionPersisted(bool),
    /// Whether the handshake succeeded.
    Connected(bool),
    /// Whether the service reports the handle as authorized; `None` where
    /// the question itself failed.
    AuthorizationChecked(Option<bool>),
    /// Whether a login code was sent to the phone.
    LoginCodeRequested(bool),
    /// The answer to the submitted code.
    CodeSubmitted(SignInOutcome),
    /// Whether the second factor was accepted.
    PasswordSubmitted(bool),
    /// Whether the authenticated session was written to disk.
    SessionSaved(bool),
}

/// What the caller does next.
#[derive(Debug, Clone, Copy, PartialEq, Eq, Structural)]
pub enum SessionAction {
    /// Load the blob at the configured path.
    LoadBlob,
    /// Create the parent directory of the blob unless it exists.
    EnsureParentDirectory,
    /// Create and delete a throwaway file beside the blob.
    ProbeWritePermission,
    /// Make an empty session and write it to the configured path.
    PersistNewSession,
    /// Connect with the session in hand.
    Connect,
    /// Ask the service whether the handle is authorized.
    CheckAuthorization,
    /// Request a login code for the configured phone number.
    RequestLoginCode,
    /// Obtain the code from the operator and submit it.
    SubmitCode,
    /// Obtain the password from the operator and submit it.
    SubmitPassword,
    /// Write the authenticated session to disk.
    SaveSession,
    /// Hand the authenticated handle to the polling loop.
    StartListening,
    /// Give up and report the failure.
    Abort(SessionFailure),
}

/// What one poll of the update stream brought.
#[derive(Debug, Clone, Copy, PartialEq, Eq, Structural)]
pub enum PollOutcome {
    /// A new message.
    NewMessage,
    /// An update of another kind.
    OtherUpdate,
    /// The transport failed.
    TransportError,
    /// No update within the timeout.
    TimedOut,
}

/// What the polling loop does with the outcome of one poll. No action ends
/// the loop.
#[derive(Debug, Clone, Copy, PartialEq, Eq, Structural)]
pub enum LoopAction {
    /// Hand the message to the normalizer, then poll again whatever came of it.
    Dispatch,
    /// Poll again at once.
    PollAgain,
    /// Pause for the given seconds, then poll again.
    PauseThenPoll(u64),
}

/// What `grammers_session::Session::load` makes of a blob: nothing where it
/// refuses the bytes, else whether the session that it holds is signed in.
pub uninterp spec fn blob_authorization(data: Seq<u8>) -> Option<bool>;

/// Calls `grammers_session::Session::load` and, on the session that it
/// gives, `signed_in`. Not proved: that the answer is the one named by
/// [`blob_authorization`], a function of the bytes alone.
#[verifier::external_body]
pub(crate) fn read_blob(data: &[u8]) -> (r: Option<bool>)
    ensures
        r == blob_authorization(data@),
{
    match grammers_session::Session::load(data) {
        Ok(session) => Some(session.signed_in()),
        Err(_) => None,
    }
}

/// Calls `grammers_session::Session::new` and `save` on it: the bytes of an
/// empty session. Nothing is claimed of them.
#[verifier::external_body]
pub(crate) fn empty_session_blob() -> (r: Vec<u8>) {
    grammers_session::Session::new().save()
}

/// The event that reports what loading a blob gave: loaded where the bytes
/// were accepted, whatever the session's authorization.
pub open spec fn load_event_of(status: Option<bool>) -> SessionEvent {
    SessionEvent::BlobLoaded(status is Some)
}

/// The bytes of a fresh session once they were tried: handed out where they
/// load as a session that is not signed in, withheld where they do not load
/// or load as a session that is signed in. `status` is what loading gave.
pub open spec fn vetted(blob: Vec<u8>, status: Option<bool>) -> Option<Vec<u8>> {
    if status == Some(false) {
        Some(blob)
    } else {
        None
    }
}

/// The failure that ends the attempt, with the action that reports it.
pub open spec fn give_up(failure: SessionFailure) -> (SessionState, SessionAction) {
    (SessionState::Failed(failure), SessionAction::Abort(failure))
}

/// The transition of the session: the state after `event` arrived in
/// `state`, and the action that answers it.
///
/// A blob that cannot be loaded counts as absent. A failed write probe is
/// not fatal. A failure to save the authenticated session leaves the handle
/// authenticated. An event that the state does not await ends the attempt.
pub open spec fn session_transition(state: SessionState, event: SessionEvent) -> (
    SessionState,
    SessionAction,
) {
    match (state, event) {
        (SessionState::NoSession, SessionEvent::BlobProbed(true)) => (
            SessionState::Loading,
            SessionAction::LoadBlob,
        ),
        (SessionState::NoSession, SessionEvent::BlobProbed(false)) => (
            SessionState::PreparingDirectory,
            SessionAction::EnsureParentDirectory,
        ),
        (SessionState::Loading, SessionEvent::BlobLoaded(true)) => (
            SessionState::SessionLoaded,
            SessionAction::Connect,
        ),
        (SessionState::Loading, SessionEvent::BlobLoaded(false)) => (
            SessionState::PreparingDirectory,
            SessionAction::EnsureParentDirectory,
        ),
        (SessionState::PreparingDirectory, SessionEvent::DirectoryEnsured(true)) => (
            SessionState::ProbingWrite,
            SessionAction::ProbeWritePermission,
        ),
        (SessionState::PreparingDirectory, SessionEvent::DirectoryEnsured(false)) => give_up(
            SessionFailure::Persistence,
        ),
        (SessionState::ProbingWrite, SessionEvent::WriteProbed(_)) => (
            SessionState::PersistingNew,
            SessionAction::PersistNewSession,
        ),
        (SessionState::PersistingNew, SessionEvent::NewSessionPersisted(true)) => (
            SessionState::SessionCreated,
            SessionAction::Connect,
        ),
        (SessionState::PersistingNew, SessionEvent::NewSessionPersisted(false)) => give_up(
            SessionFailure::Persistence,
        ),
        (SessionState::SessionLoaded, SessionEvent::Connected(true)) => (
            SessionState::Unauthenticated,
            SessionAction::CheckAuthorization,
        ),
        (SessionState::SessionCreated, SessionEvent::Connected(true)) => (
            SessionState::Unauthenticated,
            SessionAction::CheckAuthorization,
        ),
        (SessionState::SessionLoaded, SessionEvent::Connected(false)) => give_up(
            SessionFailure::Connect,
        ),
        (SessionState::SessionCreated, SessionEvent::Connected(false)) => give_up(
            SessionFailure::Connect,
        ),
        (SessionState::Unauthenticated, SessionEvent::AuthorizationChecked(Some(true))) => (
            SessionState::Authenticated,
            SessionAction::SaveSession,
        ),
        (SessionState::Unauthenticated, SessionEvent::AuthorizationChecked(Some(false))) => (
            SessionState::Unauthenticated,
            SessionAction::RequestLoginCode,
        ),
        (SessionState::Unauthenticated, SessionEvent::AuthorizationChecked(None)) => give_up(
            SessionFailure::Auth,
        ),
        (SessionState::Unauthenticated, SessionEvent::LoginCodeRequested(true)) => (
            SessionState::AwaitingCode,
            SessionAction::SubmitCode,
        ),
        (SessionState::Unauthenticated, SessionEvent::LoginCodeRequested(false)) => give_up(
            SessionFailure::Auth,
        ),
        (SessionState::AwaitingCode, SessionEvent::CodeSubmitted(SignInOutcome::Accepted)) => (
            SessionState::Authenticated,
            SessionAction::SaveSession,
        ),
        (
            SessionState::AwaitingCode,
            SessionEvent::CodeSubmitted(SignInOutcome::PasswordRequired),
        ) => (SessionState::AwaitingSecondFactor, SessionAction::SubmitPassword),
        (SessionState::AwaitingCode, SessionEvent::CodeSubmitted(SignInOutcome::Rejected)) => give_up(
            SessionFailure::Auth,
        ),
        (SessionState::AwaitingSecondFactor, SessionEvent::PasswordSubmitted(true)) => (
            SessionState::Authenticated,
            SessionAction::SaveSession,
        ),
        (SessionState::AwaitingSecondFactor, SessionEvent::PasswordSubmitted(false)) => give_up(
            SessionFailure::Auth,
        ),
        (SessionState::Authenticated, SessionEvent::SessionSaved(_)) => (
            SessionState::Authenticated,
            SessionAction::StartListening,
        ),
        (SessionState::Failed(failure), _) => give_up(failure),
        _ => give_up(SessionFailure::Unexpected),
    }
}

/// The state after a run of events, each answered in turn.
pub open spec fn session_after(state: SessionState, events: Seq<SessionEvent>) -> SessionState
    decreases events.len(),
{
    if events.len() == 0 {
        state
    } else {
        session_transition(session_after(state, events.drop_last()), events.last()).0
    }
}

/// What the loop does with the outcome of a poll: a new message is
/// dispatched, a transport error is followed by a fixed pause, and a
/// timeout or an update of another kind leads straight to the next poll.
pub open spec fn loop_action_of(outcome: PollOutcome) -> LoopAction {
    match outcome {
        PollOutcome::NewMessage => LoopAction::Dispatch,
        PollOutcome::OtherUpdate => LoopAction::PollAgain,
        PollOutcome::TransportError => LoopAction::PauseThenPoll(RETRY_DELAY_SECONDS),
        PollOutcome::TimedOut => LoopAction::PollAgain,
    }
}

impl TelegramClient {
    /// The numeric API identity.
    pub closed spec fn spec_api_id(&self) -> i32 {
        self.api_id
    }

    /// The API secret.
    pub closed spec fn spec_api_hash(&self) -> String {
        self.api_hash
    }

    /// The phone number of the account.
    pub closed spec fn spec_phone_number(&self) -> String {
        self.phone_number
    }

    /// The path of the session blob.
    pub closed spec fn spec_session_path(&self) -> String {
        self.session_path
    }

    /// A client for the given account. Nothing is connected yet.
    pub fn new(api_id: i32, api_hash: String, phone_number: String, session_path: String) -> (r:
        Self)
        ensures
            r.spec_api_id() == api_id,
            r.spec_api_hash() == api_hash,
            r.spec_phone_number() == phone_number,
            r.spec_session_path() == session_path,
    {
        Self { api_id, api_hash, phone_number, session_path }
    }

    /// The numeric API identity.
    #[verifier::when_used_as_spec(spec_api_id)]
    pub fn api_id(&self) -> (r: i32)
        ensures
            r == self.spec_api_id(),
    {
        self.api_id
    }

    /// The API secret.
    pub fn api_hash(&self) -> (r: &str)
        ensures
            r@ == self.spec_api_hash()@,
    {
        self.api_hash.as_str()
    }

    /// The phone number of the account.
    pub fn phone_number(&self) -> (r: &str)
        ensures
            r@ == self.spec_phone_number()@,
    {
        self.phone_number.as_str()
    }

    /// The path of the session blob.
    pub fn session_path(&self) -> (r: &str)
        ensures
            r@ == self.spec_session_path()@,
    {
        self.session_path.as_str()
    }

    /// The state in which every session starts.
    pub fn initial_state(&self) -> (r: SessionState)
        ensures
            r == SessionState::NoSession,
    {
        SessionState::NoSession
    }
}

/// What the operator meant by a line that was read: the line without the
/// white space around it, line end included.
pub fn entered_text(line: &str) -> (r: String)
    ensures
        r@ == trimmed(line@),
{
    String::from_str(trim(line))
}

/// The event that reports what loading a blob gave. `status` is `None`
/// where the bytes were refused, else whether the session is signed in.
pub fn load_event(status: Option<bool>) -> (r: SessionEvent)
    ensures
        r == load_event_of(status),
{
    SessionEvent::BlobLoaded(status.is_some())
}

/// Tries the bytes of a session blob and reports the outcome as an event.
pub fn examine_blob(data: &[u8]) -> (r: SessionEvent)
    ensures
        r == load_event_of(blob_authorization(data@)),
{
    load_event(read_blob(data))
}

/// Decides on the bytes of a fresh session by what loading them gave:
/// they are handed out where they load as a session that is not signed in,
/// and withheld otherwise. `status` is `None` where the bytes were refused,
/// else whether the session is signed in.
pub fn vet_blob(blob: Vec<u8>, status: Option<bool>) -> (r: Option<Vec<u8>>)
    ensures
        r == vetted(blob, status),
{
    match status {
        Some(false) => Some(blob),
        _ => None,
    }
}

/// The bytes of a fresh session, to be written where no usable blob is.
/// The bytes are made, tried, and handed out exactly where the trial found
/// them to load as a session that is not signed in; where it did not, the
/// result is `None` and nothing is to be written.
pub fn new_session_blob() -> (r: Option<Vec<u8>>)
    ensures
        exists|blob: Vec<u8>| r == vetted(blob, #[trigger] blob_authorization(blob@)),
        r is Some ==> blob_authorization(r.unwrap()@) == Some(false),
{
    let blob = empty_session_blob();
    let status = read_blob(blob.as_slice());
    let ghost made = blob;
    let r = vet_blob(blob, status);
    assert(r == vetted(made, blob_authorization(made@)));
    r
}

/// Answers an event: the next state of the session and the action to take.
pub fn session_step(state: SessionState, event: SessionEvent) -> (r: (SessionState, SessionAction))
    ensures
        r == session_transition(state, event),
{
    match state {
        SessionState::Failed(failure) => (
            SessionState::Failed(failure),
            SessionAction::Abort(failure),
        ),
        SessionState::NoSession => match event {
            SessionEvent::BlobProbed(true) => (SessionState::Loading, SessionAction::LoadBlob),
            SessionEvent::BlobProbed(false) => (
                SessionState::PreparingDirectory,
                SessionAction::EnsureParentDirectory,
            ),
            _ => unexpected(),
        },
        SessionState::Loading => match event {
            SessionEvent::BlobLoaded(true) => (SessionState::SessionLoaded, SessionAction::Connect),
            SessionEvent::BlobLoaded(false) => (
                SessionState::PreparingDirectory,
                SessionAction::EnsureParentDirectory,
            ),
            _ => unexpected(),
        },
        SessionState::PreparingDirectory => match event {
            SessionEvent::DirectoryEnsured(true) => (
                SessionState::ProbingWrite,
                SessionAction::ProbeWritePermission,
            ),
            SessionEvent::DirectoryEnsured(false) => failed(SessionFailure::Persistence),
            _ => unexpected(),
        },
        SessionState::ProbingWrite => match event {
            SessionEvent::WriteProbed(_) => (
                SessionState::PersistingNew,
                SessionAction::PersistNewSession,
            ),
            _ => unexpected(),
        },
        SessionState::PersistingNew => match event {
            SessionEvent::NewSessionPersisted(true) => (
                SessionState::SessionCreated,
                SessionAction::Connect,
            ),
            SessionEvent::NewSessionPersisted(false) => failed(SessionFailure::Persistence),
            _ => unexpected(),
        },
        SessionState::SessionLoaded | SessionState::SessionCreated => match event {
            SessionEvent::Connected(true) => (
                SessionState::Unauthenticated,
                SessionAction::CheckAuthorization,
            ),
            SessionEvent::Connected(false) => failed(SessionFailure::Connect),
            _ => unexpected(),
        },
        SessionState::Unauthenticated => match event {
            SessionEvent::AuthorizationChecked(Some(true)) => (
                SessionState::Authenticated,
                SessionAction::SaveSession,
            ),
            SessionEvent::AuthorizationChecked(Some(false)) => (
                SessionState::Unauthenticated,
                SessionAction::RequestLoginCode,
            ),
            SessionEvent::AuthorizationChecked(None) => failed(SessionFailure::Auth),
            SessionEvent::LoginCodeRequested(true) => (
                SessionState::AwaitingCode,
                SessionAction::SubmitCode,
            ),
            SessionEvent::LoginCodeRequested(false) => failed(SessionFailure::Auth),
            _ => unexpected(),
        },
        SessionState::AwaitingCode => match event {
            SessionEvent::CodeSubmitted(SignInOutcome::Accepted) => (
                SessionState::Authenticated,
                SessionAction::SaveSession,
            ),
            SessionEvent::CodeSubmitted(SignInOutcome::PasswordRequired) => (
                SessionState::AwaitingSecondFactor,
                SessionAction::SubmitPassword,
            ),
            SessionEvent::CodeSubmitted(SignInOutcome::Rejected) => failed(SessionFailure::Auth),
            _ => unexpected(),
        },
        SessionState::AwaitingSecondFactor => match event {
            SessionEvent::PasswordSubmitted(true) => (
                SessionState::Authenticated,
                SessionAction::SaveSession,
            ),
            SessionEvent::PasswordSubmitted(false) => failed(SessionFailure::Auth),
            _ => unexpected(),
        },
        SessionState::Authenticated => match event {
            SessionEvent::SessionSaved(_) => (
                SessionState::Authenticated,
                SessionAction::StartListening,
            ),
            _ => unexpected(),
        },
    }
}

/// The attempt ends with the given failure.
fn failed(failure: SessionFailure) -> (r: (SessionState, SessionAction))
    ensures
        r == give_up(failure),
{
    (SessionState::Failed(failure), SessionAction::Abort(failure))
}

/// The attempt ends because the event was not awaited.
fn unexpected() -> (r: (SessionState, SessionAction))
    ensures
        r == give_up(SessionFailure::Unexpected),
{
    failed(SessionFailure::Unexpected)
}

/// Decides what the polling loop does with the outcome of one poll.
pub fn next_action(outcome: PollOutcome) -> (r: LoopAction)
    ensures
        r == loop_action_of(outcome),
{
    match outcome {
        PollOutcome::NewMessage => LoopAction::Dispatch,
        PollOutcome::OtherUpdate => LoopAction::PollAgain,
        PollOutcome::TransportError => LoopAction::PauseThenPoll(RETRY_DELAY_SECONDS),
        PollOutcome::TimedOut => LoopAction::PollAgain,
    }
}

/// The handle becomes authenticated in three ways only: the service reports
/// it as authorized, the code is accepted, or the second factor is.
pub proof fn lemma_authenticated_only_by_authorization(state: SessionState, event: SessionEvent)
    requires
        state != SessionState::Authenticated,
        session_transition(state, event).0 == SessionState::Authenticated,
    ensures
        (state == SessionState::Unauthenticated && event == SessionEvent::AuthorizationChecked(
            Some(true),
        )) || (state == SessionState::AwaitingCode && event == SessionEvent::CodeSubmitted(
            SignInOutcome::Accepted,
        )) || (state == SessionState::AwaitingSecondFactor && event
            == SessionEvent::PasswordSubmitted(true)),
{
}

/// The polling loop is started from an authenticated handle only, and a
/// failure to save the session does not take the authentication away.
pub proof fn lemma_listening_needs_authentication(state: SessionState, event: SessionEvent)
    ensures
        session_transition(state, event).1 == SessionAction::StartListening ==> state
            == SessionState::Authenticated,
        state == SessionState::Authenticated && event is SessionSaved ==> session_transition(
            state,
            event,
        ) == (SessionState::Authenticated, SessionAction::StartListening),
{
}

/// A failed attempt stays failed, with the failure that ended it: nothing
/// is retried.
pub proof fn lemma_failure_is_final(failure: SessionFailure, events: Seq<SessionEvent>)
    ensures
        session_after(SessionState::Failed(failure), events) == SessionState::Failed(failure),
    decreases events.len(),
{
    if events.len() > 0 {
        lemma_failure_is_final(failure, events.drop_last());
    }
}

/// A blob that cannot be loaded is treated as an absent one.
pub proof fn lemma_unloadable_blob_counts_as_absent()
    ensures
        session_transition(SessionState::Loading, SessionEvent::BlobLoaded(false))
            == session_transition(SessionState::NoSession, SessionEvent::BlobProbed(false)),
{
}

/// With no blob on disk, a session that reaches the handshake was persisted
/// first, whatever the write probe said.
pub proof fn lemma_missing_blob_is_persisted_before_connect(probe: bool)
    ensures
        session_after(
            SessionState::NoSession,
            seq![
                SessionEvent::BlobProbed(false),
                SessionEvent::DirectoryEnsured(true),
                SessionEvent::WriteProbed(probe),
                SessionEvent::NewSessionPersisted(true),
            ],
        ) == SessionState::SessionCreated,
{
    let events = seq![
        SessionEvent::BlobProbed(false),
        SessionEvent::DirectoryEnsured(true),
        SessionEvent::WriteProbed(probe),
        SessionEvent::NewSessionPersisted(true),
    ];
    let three = events.drop_last();
    let two = three.drop_last();
    let one = two.drop_last();
    assert(one.drop_last().len() == 0);
    assert(session_after(SessionState::NoSession, one.drop_last()) == SessionState::NoSession);
    assert(one.last() == SessionEvent::BlobProbed(false));
    assert(session_after(SessionState::NoSession, one) == SessionState::PreparingDirectory);
    assert(two.last() == SessionEvent::DirectoryEnsured(true));
    assert(session_after(SessionState::NoSession, two) == SessionState::ProbingWrite);
    assert(three.last() == SessionEvent::WriteProbed(probe));
    assert(session_after(SessionState::NoSession, three) == SessionState::PersistingNew);
    assert(events.last() == SessionEvent::NewSessionPersisted(true));
}

/// A fresh session that was persisted is usable at the next start: its
/// bytes load, the session reports the authorization that it was created
/// with, none, and the handshake follows without a new session being made.
pub proof fn lemma_new_blob_loads(blob: Seq<u8>)
    requires
        blob_authorization(blob) == Some(false),
    ensures
        load_event_of(blob_authorization(blob)) == SessionEvent::BlobLoaded(true),
        session_transition(SessionState::Loading, load_event_of(blob_authorization(blob))) == (
            SessionState::SessionLoaded,
            SessionAction::Connect,
        ),
{
}

/// No outcome of a poll ends the loop, and only a transport error pauses it.
pub proof fn lemma_loop_never_stops(outcome: PollOutcome)
    ensures
        loop_action_of(outcome) is PauseThenPoll <==> outcome == PollOutcome::TransportError,
        loop_action_of(outcome) is Dispatch <==> outcome == PollOutcome::NewMessage,
        loop_action_of(outcome) is PauseThenPoll ==> loop_action_of(outcome)
            == LoopAction::PauseThenPoll(1),
{
}

} // verus!
