use litert_lm::engine::LoadCall;
use litert_lm::native_text::{text_from_native, to_native_text};
use litert_lm::{Backend, Engine, EngineLoad, Error, ErrorKind, Generation, MetricsFetch, Session, TurnCounts};

fn loaded_engine(settings: usize, engine: usize) -> Engine {
    let load = EngineLoad::start("model.tflite", Backend::Cpu);
    let load = load.advance(settings).advance(engine);
    match load {
        EngineLoad::Loaded(e) => e,
        _ => panic!("engine did not load"),
    }
}

fn live_session(handle: usize) -> Session {
    let engine = loaded_engine(0x10, 0x20);
    match engine.session_created(handle) {
        Ok(s) => s,
        Err(_) => panic!("session was not created"),
    }
}

fn failed_kind(load: &EngineLoad) -> Option<ErrorKind> {
    match load {
        EngineLoad::Failed(e) => Some(e.error_kind()),
        _ => None,
    }
}

#[test]
fn test_backend_enum() {
    assert_eq!(Backend::Cpu.as_str(), "cpu");
    assert_eq!(Backend::Gpu.as_str(), "gpu");
}

#[test]
fn test_error_display() {
    let err = Error::new(ErrorKind::InvalidArgument, "test error");
    assert_eq!(err.to_string(), "LiteRT-LM Error: test error");
}

#[test]
fn error_keeps_kind_and_message() {
    let err = Error::new(ErrorKind::MetricsUnavailable, "no metrics");
    assert_eq!(err.error_kind(), ErrorKind::MetricsUnavailable);
    assert_eq!(err.message_text(), "no metrics");
    let empty = Error::new(ErrorKind::EmptyResponse, "");
    assert_eq!(empty.to_string(), "LiteRT-LM Error: ");
}

#[test]
fn backend_native_name_round_trips() {
    for b in [Backend::Cpu, Backend::Gpu] {
        let name = b.native_name();
        assert_eq!(name.as_slice(), b.as_str().as_bytes());
        assert_eq!(Backend::from_native_name(&name), Some(b));
    }
    assert_eq!(Backend::Cpu.native_name(), b"cpu".to_vec());
    assert_eq!(Backend::Gpu.native_name(), b"gpu".to_vec());
}

#[test]
fn other_names_are_no_backend() {
    assert_eq!(Backend::from_native_name(b"tpu"), None);
    assert_eq!(Backend::from_native_name(b"CPU"), None);
    assert_eq!(Backend::from_native_name(b"cpu\0"), None);
    assert_eq!(Backend::from_native_name(b"gp"), None);
    assert_eq!(Backend::from_native_name(b""), None);
}

#[test]
fn native_text_rejects_zero_byte() {
    assert_eq!(to_native_text("abc").ok(), Some(b"abc".to_vec()));
    assert_eq!(to_native_text("").ok(), Some(Vec::new()));
    let err = to_native_text("a\0b").err().unwrap();
    assert_eq!(err.error_kind(), ErrorKind::InvalidArgument);
    assert!(to_native_text("\0").is_err());
}

#[test]
fn lossy_text_replaces_invalid_bytes() {
    assert_eq!(text_from_native(b"Paris"), "Paris");
    assert_eq!(text_from_native(&[0x50, 0xff, 0x61]), "P\u{FFFD}a");
    assert_eq!(text_from_native("é".as_bytes()), "é");
}

#[test]
fn path_with_terminator_fails_before_native_calls() {
    let load = EngineLoad::start("model\0.tflite", Backend::Gpu);
    assert!(load.is_finished());
    assert_eq!(failed_kind(&load), Some(ErrorKind::InvalidArgument));
}

#[test]
fn load_asks_for_settings_with_native_texts() {
    let load = EngineLoad::start("model.tflite", Backend::Gpu);
    assert!(!load.is_finished());
    match load {
        EngineLoad::CreateSettings { model_path, backend } => {
            assert_eq!(model_path, b"model.tflite".to_vec());
            assert_eq!(backend, b"gpu".to_vec());
        }
        _ => panic!("expected a settings request"),
    }
}

#[test]
fn null_settings_fail_without_engine_call() {
    let load = EngineLoad::start("model.tflite", Backend::Cpu).advance(0);
    assert!(load.is_finished());
    assert_eq!(failed_kind(&load), Some(ErrorKind::NativeConstructionFailed));
}

#[test]
fn null_engine_releases_settings_once() {
    let load = EngineLoad::start("model.tflite", Backend::Cpu).advance(0x10);
    assert!(matches!(load, EngineLoad::CreateEngine { settings: 0x10 }));
    let load = load.advance(0);
    assert!(matches!(load, EngineLoad::DeleteSettings { settings: 0x10 }));
    assert!(!load.is_finished());
    let load = load.advance(0);
    assert!(load.is_finished());
    assert_eq!(failed_kind(&load), Some(ErrorKind::NativeConstructionFailed));
}

#[test]
fn loaded_engine_releases_engine_then_settings() {
    let engine = loaded_engine(0x10, 0x20);
    assert_eq!(engine.handle(), 0x20);
    assert_eq!(engine.release(), (0x20, 0x10));
}

#[test]
fn load_call_kinds_compare() {
    assert_eq!(LoadCall::CreateSettings, LoadCall::CreateSettings);
    assert_ne!(LoadCall::CreateEngine { settings: 1 }, LoadCall::DeleteSettings { settings: 1 });
}

#[test]
fn null_session_fails_and_engine_keeps_handles() {
    let engine = loaded_engine(0x10, 0x20);
    let r = engine.session_created(0);
    assert_eq!(r.err().map(|e| e.error_kind()), Some(ErrorKind::NativeConstructionFailed));
    assert_eq!(engine.release(), (0x20, 0x10));
}

fn assert_shared<T: Sync + Send>() {}

#[test]
fn sessions_from_one_engine_are_independent() {
    assert_shared::<Engine>();
    let engine = loaded_engine(0x10, 0x20);
    let first = engine.session_created(0x30).ok().unwrap();
    let second = engine.session_created(0x31).ok().unwrap();
    assert_eq!(first.handle(), 0x30);
    assert_eq!(second.handle(), 0x31);
    assert_eq!(second.release(), 0x31);
    assert_eq!(first.release(), 0x30);
    assert_eq!(engine.release(), (0x20, 0x10));
}

fn finished_text(g: Generation) -> Result<String, ErrorKind> {
    match g {
        Generation::Finished(r) => r.map_err(|e| e.error_kind()),
        _ => panic!("generation not finished"),
    }
}

#[test]
fn generation_copies_text_before_release() {
    let session = live_session(0x30);
    let g = session.start_generation("What is the capital of France?");
    match &g {
        Generation::Generate { session, prompt } => {
            assert_eq!(*session, 0x30);
            assert_eq!(prompt.as_slice(), b"What is the capital of France?");
        }
        _ => panic!("expected a generate request"),
    }
    let g = g.responses_returned(0x40);
    assert!(matches!(g, Generation::ReadText { responses: 0x40 }));
    let g = g.text_read(Some(b"Paris".to_vec()));
    match &g {
        Generation::DeleteResponses { responses, outcome } => {
            assert_eq!(*responses, 0x40);
            assert_eq!(outcome.as_ref().ok().map(|s| s.as_str()), Some("Paris"));
        }
        _ => panic!("expected a release request"),
    }
    assert!(!g.is_finished());
    let g = g.responses_released();
    assert!(g.is_finished());
    assert_eq!(finished_text(g), Ok("Paris".to_string()));
}

#[test]
fn null_text_pointer_is_empty_response() {
    let session = live_session(0x30);
    let g = session.start_generation("hi").responses_returned(0x40).text_read(None);
    match &g {
        Generation::DeleteResponses { responses, outcome } => {
            assert_eq!(*responses, 0x40);
            assert!(outcome.is_err());
        }
        _ => panic!("expected a release request"),
    }
    assert_eq!(finished_text(g.responses_released()), Err(ErrorKind::EmptyResponse));
}

#[test]
fn null_response_buffer_is_generation_failure() {
    let session = live_session(0x30);
    let g = session.start_generation("hi").responses_returned(0);
    assert!(g.is_finished());
    assert_eq!(finished_text(g), Err(ErrorKind::GenerationFailed));
}

#[test]
fn prompt_with_terminator_is_invalid() {
    let session = live_session(0x30);
    let g = session.start_generation("a\0b");
    assert!(g.is_finished());
    assert_eq!(finished_text(g), Err(ErrorKind::InvalidArgument));
}

#[test]
fn metrics_read_before_release() {
    let session = live_session(0x30);
    let m = session.start_metrics();
    assert!(matches!(m, MetricsFetch::Fetch { session: 0x30 }));
    let m = m.info_returned(0x50);
    assert!(matches!(m, MetricsFetch::Read { info: 0x50 }));
    let turns = TurnCounts { prefill: 1, decode: 7 };
    let m = m.fields_read(turns);
    assert!(matches!(m, MetricsFetch::Delete { info: 0x50, turns: TurnCounts { prefill: 1, decode: 7 } }));
    assert!(!m.is_finished());
    let m = m.info_released();
    match m {
        MetricsFetch::Finished(Ok(t)) => assert_eq!(t, TurnCounts { prefill: 1, decode: 7 }),
        _ => panic!("expected the counters"),
    }
}

#[test]
fn null_metrics_buffer_is_unavailable() {
    let session = live_session(0x30);
    let m = session.start_metrics().info_returned(0);
    assert!(m.is_finished());
    match m {
        MetricsFetch::Finished(Err(e)) => assert_eq!(e.error_kind(), ErrorKind::MetricsUnavailable),
        _ => panic!("expected an error"),
    }
}
