use speech_core::errors::SpeechError;
use speech_core::request::{prepare_request, AudioStream};
use speech_core::session::{SessionManager, SessionState};
use speech_core::voice::VoiceCatalog;

fn sample_catalog() -> VoiceCatalog {
    let names = vec![
        "Microsoft Haruka".to_string(),
        "Microsoft Zira".to_string(),
    ];
    let default = "Microsoft Zira".to_string();
    VoiceCatalog::from_engine(names, Some(&default))
}

fn stream() -> AudioStream {
    AudioStream {
        content_type: "audio/wav".to_string(),
        byte_length: 44,
    }
}

/// Drives a fresh session up to `Playing`.
fn playing_session(m: &mut SessionManager, text: &str) -> usize {
    let id = m.start(text.to_string());
    m.begin_synthesis(id);
    let out = m.on_synthesis_result(id, Ok(stream()));
    assert!(out.is_some());
    id
}

#[test]
fn cancel_all_with_no_sessions_is_a_noop() {
    let mut m = SessionManager::new();
    m.cancel_all();
    assert_eq!(m.session_count(), 0);
    assert_eq!(m.active_count(), 0);
    m.cancel_all();
    assert_eq!(m.active_count(), 0);
}

#[test]
fn cancel_all_cancels_every_started_session() {
    let mut m = SessionManager::new();
    let a = playing_session(&mut m, "one");
    let b = playing_session(&mut m, "two");
    let c = playing_session(&mut m, "three");
    assert_eq!(m.active_count(), 3);
    m.cancel_all();
    assert_eq!(m.active_count(), 0);
    assert_eq!(m.session_state(a), SessionState::Cancelled);
    assert_eq!(m.session_state(b), SessionState::Cancelled);
    assert_eq!(m.session_state(c), SessionState::Cancelled);
    assert_eq!(m.session_count(), 3);
}

#[test]
fn play_hello_completes_on_media_ended() {
    let catalog = sample_catalog();
    let selection = catalog.default_voice().unwrap().display_name;
    let req = prepare_request(&catalog, Some(&selection), 10, "hello".to_string()).unwrap();
    assert_eq!(req.rate.tenths(), 10);

    let mut m = SessionManager::new();
    let id = m.start(req.text);
    assert_eq!(m.session_state(id), SessionState::Starting);
    m.begin_synthesis(id);
    assert_eq!(m.session_state(id), SessionState::Synthesizing);
    let out = m.on_synthesis_result(id, Ok(stream()));
    assert!(out.is_some());
    assert_eq!(m.session_state(id), SessionState::Playing);
    assert_eq!(m.active_count(), 1);
    m.deliver(id, true);
    assert_eq!(m.session_state(id), SessionState::Completed);
    assert_eq!(m.active_count(), 0);
}

#[test]
fn unknown_voice_fails_before_any_player() {
    let catalog = sample_catalog();
    let selection = "NonexistentVoice".to_string();
    let err = prepare_request(&catalog, Some(&selection), 10, "hello".to_string()).unwrap_err();
    assert_eq!(err, SpeechError::VoiceNotFound);

    let mut m = SessionManager::new();
    let id = m.start("hello".to_string());
    m.begin_synthesis(id);
    let out = m.on_synthesis_result(id, Err(err));
    assert!(out.is_none());
    assert_eq!(m.session_state(id), SessionState::Failed);
    assert_eq!(m.session_error(id), Some(SpeechError::VoiceNotFound));
    // Nothing was ever registered, so there is no player to cancel.
    assert_eq!(m.active_count(), 0);
}

#[test]
fn media_failed_signal_fails_the_session() {
    let mut m = SessionManager::new();
    let id = playing_session(&mut m, "x");
    m.deliver(id, false);
    assert_eq!(m.session_state(id), SessionState::Failed);
    assert_eq!(m.session_error(id), None);
    assert_eq!(m.active_count(), 0);
}

#[test]
fn second_signal_is_harmless() {
    let mut m = SessionManager::new();
    let id = playing_session(&mut m, "x");
    m.deliver(id, true);
    assert_eq!(m.session_state(id), SessionState::Completed);
    // Both listeners may fire; whichever came first stays authoritative.
    m.deliver(id, false);
    assert_eq!(m.session_state(id), SessionState::Completed);
    assert_eq!(m.active_count(), 0);
}

#[test]
fn signal_after_cancellation_is_harmless() {
    let mut m = SessionManager::new();
    let id = playing_session(&mut m, "x");
    m.cancel_all();
    assert_eq!(m.session_state(id), SessionState::Cancelled);
    m.deliver(id, true);
    assert_eq!(m.session_state(id), SessionState::Cancelled);
}

#[test]
fn sessions_started_after_cancel_are_unaffected() {
    let mut m = SessionManager::new();
    let a = playing_session(&mut m, "early");
    m.cancel_all();
    let b = playing_session(&mut m, "late");
    assert_eq!(m.session_state(a), SessionState::Cancelled);
    assert_eq!(m.session_state(b), SessionState::Playing);
    assert_eq!(m.active_count(), 1);
}

#[test]
fn synthesizing_session_is_not_yet_registered() {
    let mut m = SessionManager::new();
    let id = m.start("x".to_string());
    m.begin_synthesis(id);
    assert_eq!(m.active_count(), 0);
    // Cancelling now leaves the in-flight synthesis alone.
    m.cancel_all();
    assert_eq!(m.session_state(id), SessionState::Synthesizing);
}
