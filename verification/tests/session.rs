use telegram_ingest::config::{Config, ConfigError, Settings};
use telegram_ingest::telegram::{
    entered_text, examine_blob, load_event, new_session_blob, next_action, session_step, vet_blob, LoopAction, PollOutcome, SessionAction,
    SessionEvent, SessionFailure, SessionState, SignInOutcome, TelegramClient,
    POLL_TIMEOUT_SECONDS, RETRY_DELAY_SECONDS,
};
use telegram_ingest::text::{non_empty, white_space};

fn settings(api_id: Option<&str>, api_hash: Option<&str>, phone: Option<&str>) -> Settings {
    Settings {
        api_id: api_id.map(|s| s.to_string()),
        api_hash: api_hash.map(|s| s.to_string()),
        phone_number: phone.map(|s| s.to_string()),
        session_path: None,
        database_url: None,
    }
}

fn run(events: &[SessionEvent]) -> (SessionState, Vec<SessionAction>) {
    let mut state = SessionState::NoSession;
    let mut actions = Vec::new();
    for event in events {
        let (next, action) = session_step(state, *event);
        state = next;
        actions.push(action);
    }
    (state, actions)
}

#[test]
fn absent_settings_take_their_defaults() {
    let config = Config::load(settings(None, None, None)).expect("defaults");
    assert_eq!(config.telegram.api_id, 0);
    assert_eq!(config.telegram.api_hash, "");
    assert_eq!(config.telegram.phone_number, "");
    assert_eq!(config.telegram.session_path, "session.session");
    assert_eq!(config.database.url, "postgresql://localhost/f1000");
    assert!(!config.is_telegram_configured());
}

#[test]
fn settings_are_taken_as_found() {
    let mut found = settings(Some("12345"), Some("abc"), Some("+5511"));
    found.session_path = Some("data/s.session".to_string());
    found.database_url = Some("postgresql://db/x".to_string());
    let config = Config::load(found).expect("valid");
    assert_eq!(config.telegram.api_id, 12345);
    assert_eq!(config.telegram.api_hash, "abc");
    assert_eq!(config.telegram.phone_number, "+5511");
    assert_eq!(config.telegram.session_path, "data/s.session");
    assert_eq!(config.database.url, "postgresql://db/x");
    assert!(config.is_telegram_configured());
}

#[test]
fn api_identity_is_parsed_as_a_signed_decimal() {
    assert_eq!(Config::load(settings(Some("-7"), None, None)).expect("ok").telegram.api_id, -7);
    assert_eq!(Config::load(settings(Some("+7"), None, None)).expect("ok").telegram.api_id, 7);
    assert_eq!(
        Config::load(settings(Some("2147483647"), None, None)).expect("ok").telegram.api_id,
        i32::MAX
    );
}

#[test]
fn malformed_api_identity_is_refused() {
    for text in ["abc", "", " 1", "1.5", "2147483648", "0x10"] {
        let r = Config::load(settings(Some(text), Some("h"), Some("p")));
        assert!(matches!(r, Err(ConfigError::InvalidApiId)));
    }
    assert!(matches!(
        Config::assemble(None, settings(None, None, None)),
        Err(ConfigError::InvalidApiId)
    ));
}

#[test]
fn assemble_takes_the_identity_it_is_given() {
    let config = Config::assemble(Some(9), settings(Some("junk"), Some("h"), None)).expect("ok");
    assert_eq!(config.telegram.api_id, 9);
    assert_eq!(config.telegram.api_hash, "h");
    assert_eq!(config.telegram.phone_number, "");
}

#[test]
fn each_credential_is_needed() {
    let full = |id: &str, hash: &str, phone: &str| {
        Config::load(settings(Some(id), Some(hash), Some(phone)))
            .expect("valid")
            .is_telegram_configured()
    };
    assert!(full("1", "h", "p"));
    assert!(!full("0", "h", "p"));
    assert!(!full("1", "", "p"));
    assert!(!full("1", "h", ""));
}

#[test]
fn client_keeps_what_it_was_made_with() {
    let client = TelegramClient::new(
        5,
        "hash".to_string(),
        "+55".to_string(),
        "s.session".to_string(),
    );
    assert_eq!(client.api_id(), 5);
    assert_eq!(client.api_hash(), "hash");
    assert_eq!(client.phone_number(), "+55");
    assert_eq!(client.session_path(), "s.session");
    assert_eq!(client.initial_state(), SessionState::NoSession);
}

#[test]
fn entered_line_is_trimmed() {
    assert_eq!(entered_text("12345\n"), "12345");
    assert_eq!(entered_text("  pass word \r\n"), "pass word");
    assert_eq!(entered_text("\n"), "");
}

#[test]
fn empty_text_is_absent() {
    assert_eq!(non_empty(String::new()), None);
    assert_eq!(non_empty(" ".to_string()), Some(" ".to_string()));
    assert_eq!(non_empty("a".to_string()), Some("a".to_string()));
}

#[test]
fn existing_session_that_is_authorized() {
    let (state, actions) = run(&[
        SessionEvent::BlobProbed(true),
        SessionEvent::BlobLoaded(true),
        SessionEvent::Connected(true),
        SessionEvent::AuthorizationChecked(Some(true)),
        SessionEvent::SessionSaved(true),
    ]);
    assert_eq!(state, SessionState::Authenticated);
    assert_eq!(
        actions,
        vec![
            SessionAction::LoadBlob,
            SessionAction::Connect,
            SessionAction::CheckAuthorization,
            SessionAction::SaveSession,
            SessionAction::StartListening,
        ]
    );
}

#[test]
fn missing_session_is_created_and_persisted() {
    let (state, actions) = run(&[
        SessionEvent::BlobProbed(false),
        SessionEvent::DirectoryEnsured(true),
        SessionEvent::WriteProbed(true),
        SessionEvent::NewSessionPersisted(true),
    ]);
    assert_eq!(state, SessionState::SessionCreated);
    assert_eq!(
        actions,
        vec![
            SessionAction::EnsureParentDirectory,
            SessionAction::ProbeWritePermission,
            SessionAction::PersistNewSession,
            SessionAction::Connect,
        ]
    );
}

#[test]
fn unloadable_session_is_recreated() {
    let (state, actions) = run(&[SessionEvent::BlobProbed(true), SessionEvent::BlobLoaded(false)]);
    assert_eq!(state, SessionState::PreparingDirectory);
    assert_eq!(actions[1], SessionAction::EnsureParentDirectory);
}

#[test]
fn failed_write_probe_is_not_fatal() {
    assert_eq!(
        session_step(SessionState::ProbingWrite, SessionEvent::WriteProbed(false)),
        (SessionState::PersistingNew, SessionAction::PersistNewSession)
    );
}

#[test]
fn creation_failures_are_fatal() {
    assert_eq!(
        session_step(SessionState::PreparingDirectory, SessionEvent::DirectoryEnsured(false)),
        (
            SessionState::Failed(SessionFailure::Persistence),
            SessionAction::Abort(SessionFailure::Persistence)
        )
    );
    assert_eq!(
        session_step(SessionState::PersistingNew, SessionEvent::NewSessionPersisted(false)),
        (
            SessionState::Failed(SessionFailure::Persistence),
            SessionAction::Abort(SessionFailure::Persistence)
        )
    );
}

#[test]
fn connect_failure_is_fatal() {
    for state in [SessionState::SessionLoaded, SessionState::SessionCreated] {
        assert_eq!(
            session_step(state, SessionEvent::Connected(false)),
            (
                SessionState::Failed(SessionFailure::Connect),
                SessionAction::Abort(SessionFailure::Connect)
            )
        );
        assert_eq!(
            session_step(state, SessionEvent::Connected(true)),
            (SessionState::Unauthenticated, SessionAction::CheckAuthorization)
        );
    }
}

#[test]
fn login_with_code_only() {
    let mut state = SessionState::Unauthenticated;
    let mut actions = Vec::new();
    for event in [
        SessionEvent::AuthorizationChecked(Some(false)),
        SessionEvent::LoginCodeRequested(true),
        SessionEvent::CodeSubmitted(SignInOutcome::Accepted),
        SessionEvent::SessionSaved(true),
    ] {
        let (next, action) = session_step(state, event);
        state = next;
        actions.push(action);
    }
    assert_eq!(state, SessionState::Authenticated);
    assert_eq!(
        actions,
        vec![
            SessionAction::RequestLoginCode,
            SessionAction::SubmitCode,
            SessionAction::SaveSession,
            SessionAction::StartListening,
        ]
    );
}

#[test]
fn login_with_second_factor() {
    assert_eq!(
        session_step(
            SessionState::AwaitingCode,
            SessionEvent::CodeSubmitted(SignInOutcome::PasswordRequired)
        ),
        (SessionState::AwaitingSecondFactor, SessionAction::SubmitPassword)
    );
    assert_eq!(
        session_step(SessionState::AwaitingSecondFactor, SessionEvent::PasswordSubmitted(true)),
        (SessionState::Authenticated, SessionAction::SaveSession)
    );
}

#[test]
fn authentication_failures_abort() {
    let auth = (SessionState::Failed(SessionFailure::Auth), SessionAction::Abort(SessionFailure::Auth));
    assert_eq!(
        session_step(SessionState::Unauthenticated, SessionEvent::AuthorizationChecked(None)),
        auth
    );
    assert_eq!(
        session_step(SessionState::Unauthenticated, SessionEvent::LoginCodeRequested(false)),
        auth
    );
    assert_eq!(
        session_step(
            SessionState::AwaitingCode,
            SessionEvent::CodeSubmitted(SignInOutcome::Rejected)
        ),
        auth
    );
    assert_eq!(
        session_step(SessionState::AwaitingSecondFactor, SessionEvent::PasswordSubmitted(false)),
        auth
    );
}

#[test]
fn unsaved_session_stays_authenticated() {
    assert_eq!(
        session_step(SessionState::Authenticated, SessionEvent::SessionSaved(false)),
        (SessionState::Authenticated, SessionAction::StartListening)
    );
}

#[test]
fn unexpected_event_ends_the_attempt() {
    let unexpected = (
        SessionState::Failed(SessionFailure::Unexpected),
        SessionAction::Abort(SessionFailure::Unexpected),
    );
    assert_eq!(session_step(SessionState::NoSession, SessionEvent::Connected(true)), unexpected);
    assert_eq!(
        session_step(SessionState::Authenticated, SessionEvent::BlobProbed(true)),
        unexpected
    );
    assert_eq!(
        session_step(SessionState::AwaitingCode, SessionEvent::PasswordSubmitted(true)),
        unexpected
    );
}

#[test]
fn failure_is_final() {
    let failed = SessionState::Failed(SessionFailure::Connect);
    for event in [
        SessionEvent::BlobProbed(true),
        SessionEvent::Connected(true),
        SessionEvent::AuthorizationChecked(Some(true)),
        SessionEvent::SessionSaved(true),
    ] {
        assert_eq!(
            session_step(failed, event),
            (failed, SessionAction::Abort(SessionFailure::Connect))
        );
    }
}

#[test]
fn loop_decisions() {
    assert_eq!(next_action(PollOutcome::NewMessage), LoopAction::Dispatch);
    assert_eq!(next_action(PollOutcome::OtherUpdate), LoopAction::PollAgain);
    assert_eq!(next_action(PollOutcome::TimedOut), LoopAction::PollAgain);
    assert_eq!(next_action(PollOutcome::TransportError), LoopAction::PauseThenPoll(1));
    assert_eq!(RETRY_DELAY_SECONDS, 1);
    assert_eq!(POLL_TIMEOUT_SECONDS, 10);
}

#[test]
fn white_space_is_what_trimming_removes() {
    for code in 0u32..=0x10FFFF {
        if let Some(c) = char::from_u32(code) {
            assert_eq!(white_space(c), c.is_whitespace(), "U+{:04X}", code);
            let wrapped = format!("{}a{}", c, c);
            let expected = if white_space(c) { "a".to_string() } else { wrapped.clone() };
            if code % 97 == 0 || white_space(c) {
                assert_eq!(entered_text(&wrapped), expected, "U+{:04X}", code);
            }
        }
    }
}

#[test]
fn api_identity_grammar_edges() {
    let parsed = |text: &str| Config::load(settings(Some(text), None, None)).map(|c| c.telegram.api_id);
    assert!(matches!(parsed("-2147483648"), Ok(i32::MIN)));
    assert!(matches!(parsed("-2147483649"), Err(ConfigError::InvalidApiId)));
    assert!(matches!(parsed("000000000000000000012"), Ok(12)));
    assert!(matches!(parsed("-0"), Ok(0)));
    assert!(matches!(parsed("+"), Err(ConfigError::InvalidApiId)));
    assert!(matches!(parsed("-"), Err(ConfigError::InvalidApiId)));
    assert!(matches!(parsed("+-1"), Err(ConfigError::InvalidApiId)));
    assert!(matches!(parsed("1 "), Err(ConfigError::InvalidApiId)));
    assert!(matches!(parsed("1_000"), Err(ConfigError::InvalidApiId)));
    assert!(matches!(parsed("١٢"), Err(ConfigError::InvalidApiId)));
}

#[test]
fn fresh_session_blob_loads_unauthorized() {
    let blob = new_session_blob().expect("a fresh session loads");
    assert!(!blob.is_empty());
    assert_eq!(examine_blob(&blob), SessionEvent::BlobLoaded(true));
    let session = grammers_session::Session::load(&blob).expect("loads");
    assert!(!session.signed_in());
    assert_eq!(
        session_step(SessionState::Loading, examine_blob(&blob)),
        (SessionState::SessionLoaded, SessionAction::Connect)
    );
}

#[test]
fn malformed_blob_counts_as_absent() {
    assert_eq!(examine_blob(&[]), SessionEvent::BlobLoaded(false));
    assert_eq!(examine_blob(b"not a session"), SessionEvent::BlobLoaded(false));
    assert_eq!(load_event(None), SessionEvent::BlobLoaded(false));
    assert_eq!(load_event(Some(false)), SessionEvent::BlobLoaded(true));
    assert_eq!(load_event(Some(true)), SessionEvent::BlobLoaded(true));
    assert_eq!(
        session_step(SessionState::Loading, examine_blob(b"not a session")),
        (SessionState::PreparingDirectory, SessionAction::EnsureParentDirectory)
    );
}

fn decimal_i32(text: &str) -> Option<i32> {
    let chars: Vec<char> = text.chars().collect();
    let signed = matches!(chars.first(), Some('+') | Some('-'));
    let digits = if signed { &chars[1..] } else { &chars[..] };
    if digits.is_empty() || !digits.iter().all(|c| ('0'..='9').contains(c)) {
        return None;
    }
    let mut value: i128 = 0;
    for c in digits {
        value = value * 10 + i128::from(*c as u32 - '0' as u32);
        if value > 1 << 40 {
            return None;
        }
    }
    if chars[0] == '-' {
        value = -value;
    }
    i32::try_from(value).ok()
}

#[test]
fn api_identity_grammar_on_many_texts() {
    let alphabet = ['+', '-', '0', '1', '9', ' ', 'a', '_', '.'];
    let mut texts = vec![String::new()];
    let mut last = vec![String::new()];
    for _ in 0..4 {
        let mut next = Vec::new();
        for prefix in &last {
            for c in alphabet {
                next.push(format!("{}{}", prefix, c));
            }
        }
        texts.extend(next.iter().cloned());
        last = next;
    }
    for n in [2147483646i64, 2147483647, 2147483648, 4294967296, 99999999999] {
        texts.push(format!("{}", n));
        texts.push(format!("-{}", n));
        texts.push(format!("+{}", n));
        texts.push(format!("-{}", n + 1));
        texts.push(format!("00{}", n));
    }
    for text in texts {
        let loaded = Config::load(settings(Some(&text), None, None)).map(|c| c.telegram.api_id);
        match decimal_i32(&text) {
            Some(value) => assert!(matches!(loaded, Ok(v) if v == value), "{:?}", text),
            None => assert!(matches!(loaded, Err(ConfigError::InvalidApiId)), "{:?}", text),
        }
    }
}

#[test]
fn blob_is_handed_out_only_where_it_loads_unauthorized() {
    let blob = vec![1u8, 2, 3];
    assert_eq!(vet_blob(blob.clone(), Some(false)), Some(blob.clone()));
    assert_eq!(vet_blob(blob.clone(), Some(true)), None);
    assert_eq!(vet_blob(blob.clone(), None), None);
    assert_eq!(vet_blob(Vec::new(), Some(false)), Some(Vec::new()));
    let fresh = grammers_session::Session::new().save();
    assert_eq!(new_session_blob(), Some(fresh));
}
