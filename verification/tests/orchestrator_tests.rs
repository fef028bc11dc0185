use flemme::config::settings::{AppSettings, ExecutionMode, LlmModel, LlmServiceType};
use flemme::llm::RewriteError;
use flemme::orchestrator::{
    Action, Delivery, Edge, EndReason, Event, Fallback, Key, PipelineState, RewritePlan, RunConfig,
    Stage, VAD_PADDING, VAD_WINDOW,
};

fn polished_settings() -> AppSettings {
    let mut settings = AppSettings::default();
    settings.llm_models.push(LlmModel {
        id: "llm_1".to_string(),
        name: "Router".to_string(),
        api_url: "https://openrouter.ai/api/v1/chat/completions".to_string(),
        model_name: "some/model".to_string(),
        service_type: LlmServiceType::OpenRouter,
    });
    settings.execution_modes.push(ExecutionMode {
        id: "mode_polish".to_string(),
        name: "Polish".to_string(),
        llm_model_id: Some("llm_1".to_string()),
        system_prompt: "Fix the grammar.".to_string(),
    });
    settings.active_mode = "mode_polish".to_string();
    settings
}

/// Drives a toggle-mode session up to the point where transcription is awaited.
fn until_transcribing(settings: &AppSettings) -> PipelineState {
    let state = PipelineState::new();
    let (state, _) = state.on_hotkey(Key::Record, Edge::Pressed, settings);
    let (state, _) = state.on_hotkey(Key::Record, Edge::Pressed, settings);
    let (state, _) = state.on_event(Event::CaptureStopped { samples: 32000 });
    let (state, action) = state.on_event(Event::Filtered { kept: 20000, padded: 34400 });
    assert!(matches!(action, Action::Transcribe { .. }));
    state
}

fn expect_delivery(action: Action, text: &str, method: Delivery, fallback: Option<Fallback>) {
    match action {
        Action::Deliver { text: t, method: m, fallback: f } => {
            assert_eq!(t, text);
            assert_eq!(m, method);
            assert_eq!(f, fallback);
        }
        other => panic!("expected a delivery, got {:?}", other),
    }
}

#[test]
fn padding_is_150_ms_and_windows_are_32_ms() {
    assert_eq!(VAD_PADDING, 2400);
    assert_eq!(VAD_PADDING, 16000 * 150 / 1000);
    assert_eq!(VAD_WINDOW, 512);
}

#[test]
fn toggle_session_runs_to_delivery() {
    let settings = AppSettings::default();
    assert!(!settings.push_to_talk);
    let state = PipelineState::new();
    assert!(state.is_idle());

    let (state, action) = state.on_hotkey(Key::Record, Edge::Pressed, &settings);
    assert!(matches!(action, Action::StartCapture));
    assert!(state.is_recording());

    let (state, action) = state.on_hotkey(Key::Record, Edge::Released, &settings);
    assert!(matches!(action, Action::Nothing));
    assert!(state.is_recording());

    let (state, action) = state.on_hotkey(Key::Record, Edge::Pressed, &settings);
    assert!(matches!(action, Action::StopCapture));
    assert!(matches!(state, PipelineState::StoppingAndProcessing(Stage::Stopping { .. })));

    let (state, action) = state.on_event(Event::CaptureStopped { samples: 48000 });
    assert!(matches!(action, Action::FilterSilence { padding: 2400, window: 512 }));
    assert!(matches!(state, PipelineState::StoppingAndProcessing(Stage::Filtering { .. })));

    let (state, action) = state.on_event(Event::Filtered { kept: 30000, padded: 50400 });
    match action {
        Action::Transcribe { language, vocabulary, sparse } => {
            assert_eq!(language, "fr");
            assert_eq!(vocabulary, vec!["Aymeric Bellavoine", "PPAT", "Harmonie Mutuelle"]);
            assert!(!sparse);
        }
        other => panic!("unexpected action {:?}", other),
    }

    let (state, action) = state.on_event(Event::Transcribed { text: "bonjour".to_string() });
    expect_delivery(action, "bonjour", Delivery::Paste, None);
    assert!(matches!(state, PipelineState::StoppingAndProcessing(Stage::Delivering)));

    let (state, action) = state.on_event(Event::Delivered);
    assert!(matches!(action, Action::Nothing));
    assert!(state.is_idle());
}

#[test]
fn push_to_talk_ends_on_release() {
    let mut settings = AppSettings::default();
    settings.push_to_talk = true;
    settings.auto_paste = false;
    let (state, action) = PipelineState::new().on_hotkey(Key::Record, Edge::Pressed, &settings);
    assert!(matches!(action, Action::StartCapture));
    let (state, action) = state.on_hotkey(Key::Record, Edge::Pressed, &settings);
    assert!(matches!(action, Action::Nothing));
    assert!(state.is_recording());
    let (state, action) = state.on_hotkey(Key::Record, Edge::Released, &settings);
    assert!(matches!(action, Action::StopCapture));
    let (state, _) = state.on_event(Event::CaptureStopped { samples: 100 });
    let (state, _) = state.on_event(Event::Filtered { kept: 2500, padded: 2500 });
    let (_, action) = state.on_event(Event::Transcribed { text: "ok".to_string() });
    expect_delivery(action, "ok", Delivery::Copy, None);
}

#[test]
fn release_in_idle_and_cancel_in_idle_do_nothing() {
    let settings = AppSettings::default();
    let (state, action) = PipelineState::new().on_hotkey(Key::Record, Edge::Released, &settings);
    assert!(matches!(action, Action::Nothing));
    assert!(state.is_idle());
    let (state, action) = state.on_hotkey(Key::Cancel, Edge::Pressed, &settings);
    assert!(matches!(action, Action::Nothing));
    assert!(state.is_idle());
}

#[test]
fn cancel_discards_the_recording_in_toggle_mode() {
    let settings = AppSettings::default();
    let (state, _) = PipelineState::new().on_hotkey(Key::Record, Edge::Pressed, &settings);
    let (state, action) = state.on_hotkey(Key::Cancel, Edge::Released, &settings);
    assert!(matches!(action, Action::Nothing));
    let (state, action) = state.on_hotkey(Key::Cancel, Edge::Pressed, &settings);
    assert!(matches!(action, Action::DiscardCapture));
    assert!(matches!(state, PipelineState::Cancelled));
    let (state, action) = state.on_hotkey(Key::Record, Edge::Pressed, &settings);
    assert!(matches!(action, Action::Nothing));
    assert!(matches!(state, PipelineState::Cancelled));
    let (state, action) = state.on_event(Event::Transcribed { text: "x".to_string() });
    assert!(matches!(action, Action::Nothing));
    let (state, action) = state.on_event(Event::CaptureStopped { samples: 16000 });
    assert!(matches!(action, Action::Nothing));
    assert!(state.is_idle());

    let (state, _) = PipelineState::new().on_hotkey(Key::Record, Edge::Pressed, &settings);
    let (state, _) = state.on_hotkey(Key::Cancel, Edge::Pressed, &settings);
    let (state, action) = state.on_event(Event::CaptureStopFailed);
    assert!(matches!(action, Action::Nothing));
    assert!(state.is_idle());
}

#[test]
fn cancel_is_ignored_in_push_to_talk_mode() {
    let mut settings = AppSettings::default();
    settings.push_to_talk = true;
    let (state, _) = PipelineState::new().on_hotkey(Key::Record, Edge::Pressed, &settings);
    let (state, action) = state.on_hotkey(Key::Cancel, Edge::Pressed, &settings);
    assert!(matches!(action, Action::Nothing));
    assert!(state.is_recording());
}

#[test]
fn capture_start_failure_returns_to_idle() {
    let settings = AppSettings::default();
    let (state, _) = PipelineState::new().on_hotkey(Key::Record, Edge::Pressed, &settings);
    let (state, action) = state.on_event(Event::CaptureStartFailed);
    assert!(matches!(action, Action::Finish { reason: EndReason::CaptureStartFailed }));
    assert!(state.is_idle());
    let (state, action) = state.on_event(Event::CaptureStartFailed);
    assert!(matches!(action, Action::Nothing));
    assert!(state.is_idle());
}

#[test]
fn empty_or_failed_stop_short_circuits() {
    let settings = AppSettings::default();
    let (state, _) = PipelineState::new().on_hotkey(Key::Record, Edge::Pressed, &settings);
    let (stopping, _) = state.on_hotkey(Key::Record, Edge::Pressed, &settings);
    let (state, action) = stopping.on_event(Event::CaptureStopped { samples: 0 });
    assert!(matches!(action, Action::Finish { reason: EndReason::NoAudio }));
    assert!(state.is_idle());

    let (state, _) = state.on_hotkey(Key::Record, Edge::Pressed, &settings);
    let (state, _) = state.on_hotkey(Key::Record, Edge::Pressed, &settings);
    let (state, action) = state.on_event(Event::CaptureStopFailed);
    assert!(matches!(action, Action::Finish { reason: EndReason::CaptureStopFailed }));
    assert!(state.is_idle());
}

#[test]
fn nothing_left_after_filtering_skips_transcription() {
    let settings = AppSettings::default();
    let (state, _) = PipelineState::new().on_hotkey(Key::Record, Edge::Pressed, &settings);
    let (state, _) = state.on_hotkey(Key::Record, Edge::Pressed, &settings);
    let (state, _) = state.on_event(Event::CaptureStopped { samples: 16000 });
    let (state, action) = state.on_event(Event::Filtered { kept: 0, padded: 18400 });
    assert!(matches!(action, Action::Finish { reason: EndReason::NoSpeech }));
    assert!(state.is_idle());
}

#[test]
fn sparse_audio_is_flagged_but_transcribed() {
    let settings = AppSettings::default();
    for (kept, padded, expected) in [
        (919usize, 18400usize, true),
        (920, 18400, false),
        (1, 18400, true),
        (512, 10240, false),
        (511, 10240, true),
        (1, 19, false),
        (1, 40, true),
    ] {
        let (state, _) = PipelineState::new().on_hotkey(Key::Record, Edge::Pressed, &settings);
        let (state, _) = state.on_hotkey(Key::Record, Edge::Pressed, &settings);
        let (state, _) = state.on_event(Event::CaptureStopped { samples: padded - 2400.min(padded - 1) });
        let (state, action) = state.on_event(Event::Filtered { kept, padded });
        match action {
            Action::Transcribe { sparse, .. } => assert_eq!(sparse, expected, "{}/{}", kept, padded),
            other => panic!("unexpected action {:?}", other),
        }
        assert!(matches!(state, PipelineState::StoppingAndProcessing(Stage::Transcribing { .. })));
    }
}

#[test]
fn transcription_failure_and_empty_text_end_the_session() {
    let settings = AppSettings::default();
    let (state, action) = until_transcribing(&settings).on_event(Event::TranscriptionFailed);
    assert!(matches!(action, Action::Finish { reason: EndReason::TranscriptionFailed }));
    assert!(state.is_idle());
    let (state, action) =
        until_transcribing(&settings).on_event(Event::Transcribed { text: String::new() });
    assert!(matches!(action, Action::Finish { reason: EndReason::NoText }));
    assert!(state.is_idle());
    let (state, action) = until_transcribing(&polished_settings())
        .on_event(Event::Transcribed { text: String::new() });
    assert!(matches!(action, Action::Finish { reason: EndReason::NoText }));
    assert!(state.is_idle());
}

#[test]
fn custom_mode_rewrites_the_transcript() {
    let settings = polished_settings();
    let state = until_transcribing(&settings);
    let (state, action) = state.on_event(Event::Transcribed { text: "bonjour monde".to_string() });
    assert!(matches!(action, Action::FetchCredential { ref model_id } if model_id == "llm_1"));
    let (state, action) = state.on_event(Event::CredentialFound { api_key: "sk-test".to_string() });
    match action {
        Action::Rewrite { model, api_key, system_prompt, text } => {
            assert_eq!(model.id, "llm_1");
            assert_eq!(model.model_name, "some/model");
            assert_eq!(model.api_url, "https://openrouter.ai/api/v1/chat/completions");
            assert_eq!(api_key, "sk-test");
            assert_eq!(system_prompt, "Fix the grammar.");
            assert_eq!(text, "bonjour monde");
        }
        other => panic!("unexpected action {:?}", other),
    }
    assert!(matches!(state, PipelineState::StoppingAndProcessing(Stage::Rewriting { .. })));
    let (state, action) = state.on_event(Event::Rewritten { text: "Bonjour, monde.".to_string() });
    expect_delivery(action, "Bonjour, monde.", Delivery::Paste, None);
    let (state, _) = state.on_event(Event::Delivered);
    assert!(state.is_idle());
}

#[test]
fn rewrite_timeout_delivers_the_raw_transcript() {
    let settings = polished_settings();
    let state = until_transcribing(&settings);
    let (state, _) = state.on_event(Event::Transcribed { text: "bonjour monde".to_string() });
    let (state, _) = state.on_event(Event::CredentialFound { api_key: "sk-test".to_string() });
    let (state, action) = state.on_event(Event::RewriteFailed { error: RewriteError::Timeout });
    expect_delivery(
        action,
        "bonjour monde",
        Delivery::Paste,
        Some(Fallback::RewriteFailed(RewriteError::Timeout)),
    );
    assert!(matches!(state, PipelineState::StoppingAndProcessing(Stage::Delivering)));
    let (state, action) = state.on_event(Event::Delivered);
    assert!(matches!(action, Action::Nothing));
    assert!(state.is_idle());
}

#[test]
fn every_rewrite_failure_falls_back() {
    for error in [
        RewriteError::Timeout,
        RewriteError::ConnectFailed,
        RewriteError::RequestFailed,
        RewriteError::HttpStatus(500),
        RewriteError::HttpStatus(404),
        RewriteError::MalformedResponse,
    ] {
        let state = until_transcribing(&polished_settings());
        let (state, _) = state.on_event(Event::Transcribed { text: "texte".to_string() });
        let (state, _) = state.on_event(Event::CredentialFound { api_key: "k".to_string() });
        let (_, action) = state.on_event(Event::RewriteFailed { error });
        expect_delivery(action, "texte", Delivery::Paste, Some(Fallback::RewriteFailed(error)));
    }
}

#[test]
fn missing_credential_falls_back() {
    let state = until_transcribing(&polished_settings());
    let (state, _) = state.on_event(Event::Transcribed { text: "texte".to_string() });
    let (state, action) = state.on_event(Event::CredentialMissing);
    expect_delivery(action, "texte", Delivery::Paste, Some(Fallback::NoCredential));
    assert!(matches!(state, PipelineState::StoppingAndProcessing(Stage::Delivering)));
}

#[test]
fn empty_rewrite_delivers_nothing() {
    let state = until_transcribing(&polished_settings());
    let (state, _) = state.on_event(Event::Transcribed { text: "texte".to_string() });
    let (state, _) = state.on_event(Event::CredentialFound { api_key: "k".to_string() });
    let (state, action) = state.on_event(Event::Rewritten { text: String::new() });
    assert!(matches!(action, Action::Finish { reason: EndReason::NoText }));
    assert!(state.is_idle());
}

#[test]
fn delivery_failure_ends_the_session() {
    let state = until_transcribing(&AppSettings::default());
    let (state, _) = state.on_event(Event::Transcribed { text: "texte".to_string() });
    let (state, action) = state.on_event(Event::DeliveryFailed);
    assert!(matches!(action, Action::Finish { reason: EndReason::DeliveryFailed }));
    assert!(state.is_idle());
}

#[test]
fn rewrite_plan_follows_the_active_mode() {
    let settings = AppSettings::default();
    assert!(matches!(RewritePlan::select(&settings), RewritePlan::Direct { note: None }));

    let settings = polished_settings();
    match RewritePlan::select(&settings) {
        RewritePlan::Rewrite { model, system_prompt } => {
            assert_eq!(model.id, "llm_1");
            assert_eq!(system_prompt, "Fix the grammar.");
        }
        other => panic!("unexpected plan {:?}", other),
    }

    let mut missing_mode = polished_settings();
    missing_mode.active_mode = "mode_gone".to_string();
    assert!(matches!(
        RewritePlan::select(&missing_mode),
        RewritePlan::Direct { note: Some(Fallback::ModeNotFound) }
    ));

    let mut missing_model = polished_settings();
    missing_model.llm_models.clear();
    assert!(matches!(
        RewritePlan::select(&missing_model),
        RewritePlan::Direct { note: Some(Fallback::ModelNotFound) }
    ));

    let mut no_model = polished_settings();
    no_model.execution_modes[1].llm_model_id = None;
    assert!(matches!(RewritePlan::select(&no_model), RewritePlan::Direct { note: None }));

    let mut standard_with_model = polished_settings();
    standard_with_model.execution_modes[0].llm_model_id = Some("llm_1".to_string());
    standard_with_model.active_mode = "standard".to_string();
    assert!(matches!(
        RewritePlan::select(&standard_with_model),
        RewritePlan::Direct { note: None }
    ));
}

#[test]
fn rewrite_plan_takes_the_first_match() {
    let mut settings = polished_settings();
    settings.execution_modes.push(ExecutionMode {
        id: "mode_polish".to_string(),
        name: "Duplicate".to_string(),
        llm_model_id: None,
        system_prompt: "Other".to_string(),
    });
    settings.llm_models.push(LlmModel {
        id: "llm_1".to_string(),
        name: "Second".to_string(),
        api_url: "http://localhost:11434".to_string(),
        model_name: "other".to_string(),
        service_type: LlmServiceType::Ollama,
    });
    match RewritePlan::select(&settings) {
        RewritePlan::Rewrite { model, system_prompt } => {
            assert_eq!(model.name, "Router");
            assert_eq!(system_prompt, "Fix the grammar.");
        }
        other => panic!("unexpected plan {:?}", other),
    }
}

#[test]
fn fallbacks_from_planning_are_reported_with_the_delivery() {
    let mut settings = polished_settings();
    settings.active_mode = "mode_gone".to_string();
    let state = until_transcribing(&settings);
    let (_, action) = state.on_event(Event::Transcribed { text: "texte".to_string() });
    expect_delivery(action, "texte", Delivery::Paste, Some(Fallback::ModeNotFound));
}

#[test]
fn settings_are_fixed_when_processing_begins() {
    let mut settings = polished_settings();
    settings.language = "en".to_string();
    let run = RunConfig::snapshot(&settings);
    assert_eq!(run.language, "en");
    assert_eq!(run.method, Delivery::Paste);
    assert_eq!(run.vocabulary, settings.custom_words);
    assert!(matches!(run.rewrite, RewritePlan::Rewrite { .. }));

    let (state, _) = PipelineState::new().on_hotkey(Key::Record, Edge::Pressed, &settings);
    let (state, _) = state.on_hotkey(Key::Record, Edge::Pressed, &settings);
    settings.language = "de".to_string();
    settings.active_mode = "standard".to_string();
    let (state, _) = state.on_event(Event::CaptureStopped { samples: 1 });
    let (state, action) = state.on_event(Event::Filtered { kept: 5, padded: 10 });
    assert!(matches!(action, Action::Transcribe { ref language, .. } if language == "en"));
    let (_, action) = state.on_event(Event::Transcribed { text: "hi".to_string() });
    assert!(matches!(action, Action::FetchCredential { .. }));
}

#[test]
fn reports_that_do_not_belong_to_the_stage_change_nothing() {
    let settings = AppSettings::default();
    let (state, _) = PipelineState::new().on_hotkey(Key::Record, Edge::Pressed, &settings);
    let (state, _) = state.on_hotkey(Key::Record, Edge::Pressed, &settings);
    let (state, action) = state.on_event(Event::Transcribed { text: "early".to_string() });
    assert!(matches!(action, Action::Nothing));
    assert!(matches!(state, PipelineState::StoppingAndProcessing(Stage::Stopping { .. })));
    let (state, action) = state.on_event(Event::Filtered { kept: 1, padded: 1 });
    assert!(matches!(action, Action::Nothing));
    let (state, action) = state.on_hotkey(Key::Record, Edge::Pressed, &settings);
    assert!(matches!(action, Action::Nothing));
    assert!(matches!(state, PipelineState::StoppingAndProcessing(Stage::Stopping { .. })));
    let (state, action) = PipelineState::new().on_event(Event::CaptureStopped { samples: 5 });
    assert!(matches!(action, Action::Nothing));
    assert!(state.is_idle());
    assert!(!state.is_recording());
}

#[test]
fn unavailable_filter_leaves_the_recording_as_it_is() {
    let settings = AppSettings::default();
    let (state, _) = PipelineState::new().on_hotkey(Key::Record, Edge::Pressed, &settings);
    let (state, _) = state.on_hotkey(Key::Record, Edge::Pressed, &settings);
    let (state, _) = state.on_event(Event::CaptureStopped { samples: 16000 });
    let (state, action) = state.on_event(Event::FilterUnavailable { padded: 18400 });
    assert!(matches!(action, Action::Transcribe { sparse: false, .. }));
    assert!(matches!(state, PipelineState::StoppingAndProcessing(Stage::Transcribing { .. })));
}
