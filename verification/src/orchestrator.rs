//! The hotkey-driven state machine that sequences one dictation session:
//! capture, stop, silence filtering, transcription, optional rewrite, delivery.
//!
//! The machine only decides. Whoever drives it performs each [`Action`] and
//! reports what came of it as the next [`Event`].

use vstd::prelude::*;
use crate::config::settings::{
    mode_ids, model_ids, standard_id, AppSettings, AppSettingsView, LlmModel, LlmModelView,
};
use crate::llm::RewriteError;
use crate::text::{first_match, same_text, texts};

verus! {

/// Samples of silence put before a recording ahead of silence filtering:
/// 150 ms at 16 kHz.
pub const VAD_PADDING: usize = 2400;

/// Analysis window handed to the voice-activity filter, in samples.
pub const VAD_WINDOW: usize = 512;

/// Which of the two registered keys an edge belongs to.
#[derive(Debug, Clone, Copy, PartialEq, Eq, Structural)]
pub enum Key {
    Record,
    Cancel,
}

/// Direction of a key edge.
#[derive(Debug, Clone, Copy, PartialEq, Eq, Structural)]
pub enum Edge {
    Pressed,
    Released,
}

/// How the final text reaches the active application.
#[derive(Debug, Clone, Copy, PartialEq, Eq, Structural)]
pub enum Delivery {
    /// Copy to the clipboard, then simulate the paste keystroke.
    Paste,
    /// Copy to the clipboard only.
    Copy,
}

/// Why the raw transcript is delivered although the active mode is not the
/// standard one.
#[derive(Debug, Clone, Copy, PartialEq, Eq, Structural)]
pub enum Fallback {
    /// The active mode is not among the configured modes.
    ModeNotFound,
    /// The mode names a model that is not configured.
    ModelNotFound,
    /// No credential is stored for the model, or the store could not be read.
    NoCredential,
    /// The rewrite request failed.
    RewriteFailed(RewriteError),
}

/// Why a session ended without delivering text.
#[derive(Debug, Clone, Copy, PartialEq, Eq, Structural)]
pub enum EndReason {
    CaptureStartFailed,
    CaptureStopFailed,
    /// The recording held no samples.
    NoAudio,
    /// Silence filtering left nothing.
    NoSpeech,
    TranscriptionFailed,
    /// The text to deliver was empty.
    NoText,
    DeliveryFailed,
}

/// What becomes of a transcript once it exists.
#[derive(Debug)]
pub enum RewritePlan {
    /// Deliver it as it is. `note` holds the reason when a rewrite was asked
    /// for but cannot be set up.
    Direct { note: Option<Fallback> },
    /// Hand it to `model` under `system_prompt`.
    Rewrite { model: LlmModel, system_prompt: String },
}

/// Mathematical value of a [`RewritePlan`].
pub enum RewritePlanView {
    Direct { note: Option<Fallback> },
    Rewrite { model: LlmModelView, system_prompt: Seq<char> },
}

impl View for RewritePlan {
    type V = RewritePlanView;

    open spec fn view(&self) -> RewritePlanView {
        match *self {
            RewritePlan::Direct { note } => RewritePlanView::Direct { note },
            RewritePlan::Rewrite { model, system_prompt } => RewritePlanView::Rewrite {
                model: model@,
                system_prompt: system_prompt@,
            },
        }
    }
}

/// The settings one session runs under, fixed when processing begins.
#[derive(Debug)]
pub struct RunConfig {
    pub language: String,
    pub vocabulary: Vec<String>,
    pub method: Delivery,
    pub rewrite: RewritePlan,
}

/// Mathematical value of a [`RunConfig`].
pub struct RunConfigView {
    pub language: Seq<char>,
    pub vocabulary: Seq<Seq<char>>,
    pub method: Delivery,
    pub rewrite: RewritePlanView,
}

impl View for RunConfig {
    type V = RunConfigView;

    open spec fn view(&self) -> RunConfigView {
        RunConfigView {
            language: self.language@,
            vocabulary: texts(self.vocabulary@),
            method: self.method,
            rewrite: self.rewrite@,
        }
    }
}

/// The delivery method that the auto-paste flag selects.
pub open spec fn delivery_for(auto_paste: bool) -> Delivery {
    if auto_paste {
        Delivery::Paste
    } else {
        Delivery::Copy
    }
}

/// The rewrite plan that a settings record asks for.
///
/// The standard mode never rewrites. Any other active mode rewrites when it
/// is configured, names a model, and that model is configured; the first
/// entry with a matching identifier counts.
pub open spec fn plan_rewrite(cfg: AppSettingsView) -> RewritePlanView {
    if cfg.active_mode == standard_id() {
        RewritePlanView::Direct { note: None }
    } else {
        match first_match(mode_ids(cfg.execution_modes), cfg.active_mode) {
            None => RewritePlanView::Direct { note: Some(Fallback::ModeNotFound) },
            Some(i) => match cfg.execution_modes[i].llm_model_id {
                None => RewritePlanView::Direct { note: None },
                Some(model_id) => match first_match(model_ids(cfg.llm_models), model_id) {
                    None => RewritePlanView::Direct { note: Some(Fallback::ModelNotFound) },
                    Some(j) => RewritePlanView::Rewrite {
                        model: cfg.llm_models[j],
                        system_prompt: cfg.execution_modes[i].system_prompt,
                    },
                },
            },
        }
    }
}

/// The session settings that a settings record yields.
pub open spec fn run_config(cfg: AppSettingsView) -> RunConfigView {
    RunConfigView {
        language: cfg.language,
        vocabulary: cfg.custom_words,
        method: delivery_for(cfg.auto_paste),
        rewrite: plan_rewrite(cfg),
    }
}

impl RewritePlan {
    /// Chooses what becomes of a transcript under the given settings.
    pub fn select(settings: &AppSettings) -> (plan: Self)
        ensures
            plan@ == plan_rewrite(settings@),
    {
        if same_text(settings.active_mode.as_str(), "standard") {
            return RewritePlan::Direct { note: None };
        }
        match settings.find_mode(settings.active_mode.as_str()) {
            None => RewritePlan::Direct { note: Some(Fallback::ModeNotFound) },
            Some(i) => {
                let mode = &settings.execution_modes[i];
                match &mode.llm_model_id {
                    None => RewritePlan::Direct { note: None },
                    Some(model_id) => match settings.find_model(model_id.as_str()) {
                        None => RewritePlan::Direct { note: Some(Fallback::ModelNotFound) },
                        Some(j) => RewritePlan::Rewrite {
                            model: settings.llm_models[j].clone(),
                            system_prompt: mode.system_prompt.clone(),
                        },
                    },
                }
            },
        }
    }
}

impl RunConfig {
    /// Fixes the settings for one session.
    pub fn snapshot(settings: &AppSettings) -> (run: Self)
        ensures
            run@ == run_config(settings@),
    {
        let vocabulary = settings.vocabulary();
        RunConfig {
            language: settings.language.clone(),
            vocabulary,
            method: if settings.auto_paste {
                Delivery::Paste
            } else {
                Delivery::Copy
            },
            rewrite: RewritePlan::select(settings),
        }
    }
}

/// Where a session stands once recording has ended normally.
#[derive(Debug)]
pub enum Stage {
    /// Capture was told to stop; its buffer is awaited.
    Stopping { run: RunConfig },
    /// The padded buffer is with the voice-activity filter.
    Filtering { run: RunConfig },
    /// The filtered audio is with the transcription worker.
    Transcribing { run: RunConfig },
    /// The credential of the rewrite model is being looked up.
    FetchingCredential {
        transcript: String,
        model: LlmModel,
        system_prompt: String,
        method: Delivery,
    },
    /// The rewrite request is in flight.
    Rewriting { transcript: String, method: Delivery },
    /// The final text is being handed to the active application.
    Delivering,
}

/// Mathematical value of a [`Stage`].
pub enum StageView {
    Stopping { run: RunConfigView },
    Filtering { run: RunConfigView },
    Transcribing { run: RunConfigView },
    FetchingCredential {
        transcript: Seq<char>,
        model: LlmModelView,
        system_prompt: Seq<char>,
        method: Delivery,
    },
    Rewriting { transcript: Seq<char>, method: Delivery },
    Delivering,
}

impl View for Stage {
    type V = StageView;

    open spec fn view(&self) -> StageView {
        match *self {
            Stage::Stopping { run } => StageView::Stopping { run: run@ },
            Stage::Filtering { run } => StageView::Filtering { run: run@ },
            Stage::Transcribing { run } => StageView::Transcribing { run: run@ },
            Stage::FetchingCredential { transcript, model, system_prompt, method } => {
                StageView::FetchingCredential {
                    transcript: transcript@,
                    model: model@,
                    system_prompt: system_prompt@,
                    method,
                }
            },
            Stage::Rewriting { transcript, method } => StageView::Rewriting {
                transcript: transcript@,
                method,
            },
            Stage::Delivering => StageView::Delivering,
        }
    }
}

/// State of the orchestrator.
#[derive(Debug)]
pub enum PipelineState {
    Idle,
    Recording,
    /// Recording was cancelled; capture is being stopped and its audio dropped.
    Cancelled,
    StoppingAndProcessing(Stage),
}

/// Mathematical value of a [`PipelineState`].
pub enum PipelineStateView {
    Idle,
    Recording,
    Cancelled,
    StoppingAndProcessing(StageView),
}

impl View for PipelineState {
    type V = PipelineStateView;

    open spec fn view(&self) -> PipelineStateView {
        match *self {
            PipelineState::Idle => PipelineStateView::Idle,
            PipelineState::Recording => PipelineStateView::Recording,
            PipelineState::Cancelled => PipelineStateView::Cancelled,
            PipelineState::StoppingAndProcessing(stage) => PipelineStateView::StoppingAndProcessing(
                stage@,
            ),
        }
    }
}

/// What the outside reports back to the orchestrator.
#[derive(Debug)]
pub enum Event {
    /// Capture could not be started.
    CaptureStartFailed,
    /// Capture stopped and handed over a buffer of `samples` samples.
    CaptureStopped { samples: usize },
    CaptureStopFailed,
    /// Silence filtering kept `kept` of the `padded` samples it was given.
    Filtered { kept: usize, padded: usize },
    /// Silence filtering could not run; the `padded` samples it was given
    /// are left as they are.
    FilterUnavailable { padded: usize },
    Transcribed { text: String },
    TranscriptionFailed,
    CredentialFound { api_key: String },
    /// The store holds no credential for the model, or could not be read.
    CredentialMissing,
    Rewritten { text: String },
    RewriteFailed { error: RewriteError },
    Delivered,
    DeliveryFailed,
}

/// Mathematical value of an [`Event`].
pub enum EventView {
    CaptureStartFailed,
    CaptureStopped { samples: usize },
    CaptureStopFailed,
    Filtered { kept: usize, padded: usize },
    FilterUnavailable { padded: usize },
    Transcribed { text: Seq<char> },
    TranscriptionFailed,
    CredentialFound { api_key: Seq<char> },
    CredentialMissing,
    Rewritten { text: Seq<char> },
    RewriteFailed { error: RewriteError },
    Delivered,
    DeliveryFailed,
}

impl View for Event {
    type V = EventView;

    open spec fn view(&self) -> EventView {
        match *self {
            Event::CaptureStartFailed => EventView::CaptureStartFailed,
            Event::CaptureStopped { samples } => EventView::CaptureStopped { samples },
            Event::CaptureStopFailed => EventView::CaptureStopFailed,
            Event::Filtered { kept, padded } => EventView::Filtered { kept, padded },
            Event::FilterUnavailable { padded } => EventView::FilterUnavailable { padded },
            Event::Transcribed { text } => EventView::Transcribed { text: text@ },
            Event::TranscriptionFailed => EventView::TranscriptionFailed,
            Event::CredentialFound { api_key } => EventView::CredentialFound { api_key: api_key@ },
            Event::CredentialMissing => EventView::CredentialMissing,
            Event::Rewritten { text } => EventView::Rewritten { text: text@ },
            Event::RewriteFailed { error } => EventView::RewriteFailed { error },
            Event::Delivered => EventView::Delivered,
            Event::DeliveryFailed => EventView::DeliveryFailed,
        }
    }
}

/// What the orchestrator asks the outside to do next.
#[derive(Debug)]
pub enum Action {
    /// Nothing: the event changes nothing, or the session is over.
    Nothing,
    /// Start capture and announce that recording began.
    StartCapture,
    /// Announce that recording ended, stop capture and report its buffer.
    StopCapture,
    /// Announce that recording ended, stop capture and drop its buffer.
    DiscardCapture,
    /// Put `padding` samples of silence before the buffer and filter it in
    /// windows of `window` samples.
    FilterSilence { padding: usize, window: usize },
    /// Transcribe the filtered audio. `sparse` marks audio of which filtering
    /// left less than a twentieth: worth a warning, still transcribed.
    Transcribe { language: String, vocabulary: Vec<String>, sparse: bool },
    /// Look up the credential stored for a rewrite model.
    FetchCredential { model_id: String },
    /// Send the transcript to the rewrite model.
    Rewrite { model: LlmModel, api_key: String, system_prompt: String, text: String },
    /// Hand the final text over. `fallback` tells why it is the raw
    /// transcript where a rewrite had been asked for.
    Deliver { text: String, method: Delivery, fallback: Option<Fallback> },
    /// Record why the session ends without text.
    Finish { reason: EndReason },
}

/// Mathematical value of an [`Action`].
pub enum ActionView {
    Nothing,
    StartCapture,
    StopCapture,
    DiscardCapture,
    FilterSilence { padding: usize, window: usize },
    Transcribe { language: Seq<char>, vocabulary: Seq<Seq<char>>, sparse: bool },
    FetchCredential { model_id: Seq<char> },
    Rewrite { model: LlmModelView, api_key: Seq<char>, system_prompt: Seq<char>, text: Seq<char> },
    Deliver { text: Seq<char>, method: Delivery, fallback: Option<Fallback> },
    Finish { reason: EndReason },
}

impl View for Action {
    type V = ActionView;

    open spec fn view(&self) -> ActionView {
        match *self {
            Action::Nothing => ActionView::Nothing,
            Action::StartCapture => ActionView::StartCapture,
            Action::StopCapture => ActionView::StopCapture,
            Action::DiscardCapture => ActionView::DiscardCapture,
            Action::FilterSilence { padding, window } => ActionView::FilterSilence {
                padding,
                window,
            },
            Action::Transcribe { language, vocabulary, sparse } => ActionView::Transcribe {
                language: language@,
                vocabulary: texts(vocabulary@),
                sparse,
            },
            Action::FetchCredential { model_id } => ActionView::FetchCredential {
                model_id: model_id@,
            },
            Action::Rewrite { model, api_key, system_prompt, text } => ActionView::Rewrite {
                model: model@,
                api_key: api_key@,
                system_prompt: system_prompt@,
                text: text@,
            },
            Action::Deliver { text, method, fallback } => ActionView::Deliver {
                text: text@,
                method,
                fallback,
            },
            Action::Finish { reason } => ActionView::Finish { reason },
        }
    }
}

/// The session is over without text: back to idle, with the reason.
pub open spec fn finish(reason: EndReason) -> (PipelineStateView, ActionView) {
    (PipelineStateView::Idle, ActionView::Finish { reason })
}

/// The final text goes out.
pub open spec fn deliver(text: Seq<char>, method: Delivery, fallback: Option<Fallback>) -> (
    PipelineStateView,
    ActionView,
) {
    (
        PipelineStateView::StoppingAndProcessing(StageView::Delivering),
        ActionView::Deliver { text, method, fallback },
    )
}

/// Whether filtering left so little that a warning is due: less than a
/// twentieth of what went in.
pub open spec fn is_sparse(kept: usize, padded: usize) -> bool {
    kept < padded / 20
}

/// What follows silence filtering: nothing left ends the session;
/// otherwise what is left is transcribed, however little it is.
pub open spec fn after_filtering(run: RunConfigView, kept: usize, padded: usize) -> (
    PipelineStateView,
    ActionView,
) {
    if kept == 0 {
        finish(EndReason::NoSpeech)
    } else {
        (
            PipelineStateView::StoppingAndProcessing(StageView::Transcribing { run }),
            ActionView::Transcribe {
                language: run.language,
                vocabulary: run.vocabulary,
                sparse: is_sparse(kept, padded),
            },
        )
    }
}

/// The reaction to a key edge.
///
/// A press of the record key starts a recording from idle. While recording,
/// releasing the record key (push-to-talk) or pressing it again (toggle) ends
/// the recording and fixes the session's settings; pressing the cancel key
/// (toggle only) abandons it. Every other edge changes nothing.
pub open spec fn hotkey_step(
    state: PipelineStateView,
    key: Key,
    edge: Edge,
    cfg: AppSettingsView,
) -> (PipelineStateView, ActionView) {
    match state {
        PipelineStateView::Idle => if key == Key::Record && edge == Edge::Pressed {
            (PipelineStateView::Recording, ActionView::StartCapture)
        } else {
            (state, ActionView::Nothing)
        },
        PipelineStateView::Recording => if key == Key::Record && (edge == Edge::Released)
            == cfg.push_to_talk {
            (
                PipelineStateView::StoppingAndProcessing(
                    StageView::Stopping { run: run_config(cfg) },
                ),
                ActionView::StopCapture,
            )
        } else if key == Key::Cancel && edge == Edge::Pressed && !cfg.push_to_talk {
            (PipelineStateView::Cancelled, ActionView::DiscardCapture)
        } else {
            (state, ActionView::Nothing)
        },
        _ => (state, ActionView::Nothing),
    }
}

/// The reaction to a report from the outside.
///
/// Each stage answers only the reports that belong to it; any other report
/// changes nothing. A failure ends the session, except during a rewrite,
/// where the raw transcript is delivered instead.
pub open spec fn event_step(state: PipelineStateView, event: EventView) -> (
    PipelineStateView,
    ActionView,
) {
    match (state, event) {
        (PipelineStateView::Recording, EventView::CaptureStartFailed) => finish(
            EndReason::CaptureStartFailed,
        ),
        (PipelineStateView::Cancelled, EventView::CaptureStopped { .. }) => (
            PipelineStateView::Idle,
            ActionView::Nothing,
        ),
        (PipelineStateView::Cancelled, EventView::CaptureStopFailed) => (
            PipelineStateView::Idle,
            ActionView::Nothing,
        ),
        (PipelineStateView::StoppingAndProcessing(stage), _) => stage_step(stage, event),
        _ => (state, ActionView::Nothing),
    }
}

/// The reaction of a processing stage to a report.
pub open spec fn stage_step(stage: StageView, event: EventView) -> (
    PipelineStateView,
    ActionView,
) {
    let unchanged = (PipelineStateView::StoppingAndProcessing(stage), ActionView::Nothing);
    match stage {
        StageView::Stopping { run } => match event {
            EventView::CaptureStopped { samples } => if samples == 0 {
                finish(EndReason::NoAudio)
            } else {
                (
                    PipelineStateView::StoppingAndProcessing(StageView::Filtering { run }),
                    ActionView::FilterSilence { padding: VAD_PADDING, window: VAD_WINDOW },
                )
            },
            EventView::CaptureStopFailed => finish(EndReason::CaptureStopFailed),
            _ => unchanged,
        },
        StageView::Filtering { run } => match event {
            EventView::Filtered { kept, padded } => after_filtering(run, kept, padded),
            EventView::FilterUnavailable { padded } => after_filtering(run, padded, padded),
            _ => unchanged,
        },
        StageView::Transcribing { run } => match event {
            EventView::Transcribed { text } => if text.len() == 0 {
                finish(EndReason::NoText)
            } else {
                match run.rewrite {
                    RewritePlanView::Direct { note } => deliver(text, run.method, note),
                    RewritePlanView::Rewrite { model, system_prompt } => (
                        PipelineStateView::StoppingAndProcessing(
                            StageView::FetchingCredential {
                                transcript: text,
                                model,
                                system_prompt,
                                method: run.method,
                            },
                        ),
                        ActionView::FetchCredential { model_id: model.id },
                    ),
                }
            },
            EventView::TranscriptionFailed => finish(EndReason::TranscriptionFailed),
            _ => unchanged,
        },
        StageView::FetchingCredential { transcript, model, system_prompt, method } => match event {
            EventView::CredentialFound { api_key } => (
                PipelineStateView::StoppingAndProcessing(
                    StageView::Rewriting { transcript, method },
                ),
                ActionView::Rewrite { model, api_key, system_prompt, text: transcript },
            ),
            EventView::CredentialMissing => deliver(
                transcript,
                method,
                Some(Fallback::NoCredential),
            ),
            _ => unchanged,
        },
        StageView::Rewriting { transcript, method } => match event {
            EventView::Rewritten { text } => if text.len() == 0 {
                finish(EndReason::NoText)
            } else {
                deliver(text, method, None)
            },
            EventView::RewriteFailed { error } => deliver(
                transcript,
                method,
                Some(Fallback::RewriteFailed(error)),
            ),
            _ => unchanged,
        },
        StageView::Delivering => match event {
            EventView::Delivered => (PipelineStateView::Idle, ActionView::Nothing),
            EventView::DeliveryFailed => finish(EndReason::DeliveryFailed),
            _ => unchanged,
        },
    }
}

impl Stage {
    /// Decides what follows silence filtering.
    fn filtering_done(run: RunConfig, kept: usize, padded: usize) -> (next: (PipelineState, Action))
        ensures
            (next.0@, next.1@) == after_filtering(run@, kept, padded),
    {
        if kept == 0 {
            (PipelineState::Idle, Action::Finish { reason: EndReason::NoSpeech })
        } else {
            let language = run.language.clone();
            let vocabulary = run.vocabulary.clone();
            assert(vocabulary@ =~= run.vocabulary@);
            (
                PipelineState::StoppingAndProcessing(Stage::Transcribing { run }),
                Action::Transcribe { language, vocabulary, sparse: kept < padded / 20 },
            )
        }
    }

    /// Applies a report to a processing stage.
    pub fn on_event(self, event: Event) -> (next: (PipelineState, Action))
        ensures
            (next.0@, next.1@) == stage_step(self@, event@),
    {
        match self {
            Stage::Stopping { run } => match event {
                Event::CaptureStopped { samples } => if samples == 0 {
                    (PipelineState::Idle, Action::Finish { reason: EndReason::NoAudio })
                } else {
                    (
                        PipelineState::StoppingAndProcessing(Stage::Filtering { run }),
                        Action::FilterSilence { padding: VAD_PADDING, window: VAD_WINDOW },
                    )
                },
                Event::CaptureStopFailed => (
                    PipelineState::Idle,
                    Action::Finish { reason: EndReason::CaptureStopFailed },
                ),
                _ => (
                    PipelineState::StoppingAndProcessing(Stage::Stopping { run }),
                    Action::Nothing,
                ),
            },
            Stage::Filtering { run } => match event {
                Event::Filtered { kept, padded } => Self::filtering_done(run, kept, padded),
                Event::FilterUnavailable { padded } => Self::filtering_done(run, padded, padded),
                _ => (
                    PipelineState::StoppingAndProcessing(Stage::Filtering { run }),
                    Action::Nothing,
                ),
            },
            Stage::Transcribing { run } => match event {
                Event::Transcribed { text } => if text.as_str().is_empty() {
                    (PipelineState::Idle, Action::Finish { reason: EndReason::NoText })
                } else {
                    match run.rewrite {
                        RewritePlan::Direct { note } => (
                            PipelineState::StoppingAndProcessing(Stage::Delivering),
                            Action::Deliver { text, method: run.method, fallback: note },
                        ),
                        RewritePlan::Rewrite { model, system_prompt } => {
                            let model_id = model.id.clone();
                            (
                                PipelineState::StoppingAndProcessing(
                                    Stage::FetchingCredential {
                                        transcript: text,
                                        model,
                                        system_prompt,
                                        method: run.method,
                                    },
                                ),
                                Action::FetchCredential { model_id },
                            )
                        },
                    }
                },
                Event::TranscriptionFailed => (
                    PipelineState::Idle,
                    Action::Finish { reason: EndReason::TranscriptionFailed },
                ),
                _ => (
                    PipelineState::StoppingAndProcessing(Stage::Transcribing { run }),
                    Action::Nothing,
                ),
            },
            Stage::FetchingCredential { transcript, model, system_prompt, method } => match event {
                Event::CredentialFound { api_key } => {
                    let text = transcript.clone();
                    (
                        PipelineState::StoppingAndProcessing(
                            Stage::Rewriting { transcript, method },
                        ),
                        Action::Rewrite { model, api_key, system_prompt, text },
                    )
                },
                Event::CredentialMissing => (
                    PipelineState::StoppingAndProcessing(Stage::Delivering),
                    Action::Deliver {
                        text: transcript,
                        method,
                        fallback: Some(Fallback::NoCredential),
                    },
                ),
                _ => (
                    PipelineState::StoppingAndProcessing(
                        Stage::FetchingCredential { transcript, model, system_prompt, method },
                    ),
                    Action::Nothing,
                ),
            },
            Stage::Rewriting { transcript, method } => match event {
                Event::Rewritten { text } => if text.as_str().is_empty() {
                    (PipelineState::Idle, Action::Finish { reason: EndReason::NoText })
                } else {
                    (
                        PipelineState::StoppingAndProcessing(Stage::Delivering),
                        Action::Deliver { text, method, fallback: None },
                    )
                },
                Event::RewriteFailed { error } => (
                    PipelineState::StoppingAndProcessing(Stage::Delivering),
                    Action::Deliver {
                        text: transcript,
                        method,
                        fallback: Some(Fallback::RewriteFailed(error)),
                    },
                ),
                _ => (
                    PipelineState::StoppingAndProcessing(Stage::Rewriting { transcript, method }),
                    Action::Nothing,
                ),
            },
            Stage::Delivering => match event {
                Event::Delivered => (PipelineState::Idle, Action::Nothing),
                Event::DeliveryFailed => (
                    PipelineState::Idle,
                    Action::Finish { reason: EndReason::DeliveryFailed },
                ),
                _ => (PipelineState::StoppingAndProcessing(Stage::Delivering), Action::Nothing),
            },
        }
    }
}

impl PipelineState {
    /// The state before any key was touched.
    pub fn new() -> (state: Self)
        ensures
            state@ == PipelineStateView::Idle,
    {
        PipelineState::Idle
    }

    /// Applies a key edge under the settings read at that moment.
    pub fn on_hotkey(self, key: Key, edge: Edge, settings: &AppSettings) -> (next: (
        PipelineState,
        Action,
    ))
        ensures
            (next.0@, next.1@) == hotkey_step(self@, key, edge, settings@),
    {
        match self {
            PipelineState::Idle => if key == Key::Record && edge == Edge::Pressed {
                (PipelineState::Recording, Action::StartCapture)
            } else {
                (PipelineState::Idle, Action::Nothing)
            },
            PipelineState::Recording => if key == Key::Record && (edge == Edge::Released)
                == settings.push_to_talk {
                let run = RunConfig::snapshot(settings);
                (
                    PipelineState::StoppingAndProcessing(Stage::Stopping { run }),
                    Action::StopCapture,
                )
            } else if key == Key::Cancel && edge == Edge::Pressed && !settings.push_to_talk {
                (PipelineState::Cancelled, Action::DiscardCapture)
            } else {
                (PipelineState::Recording, Action::Nothing)
            },
            other => (other, Action::Nothing),
        }
    }

    /// Applies a report from the outside.
    pub fn on_event(self, event: Event) -> (next: (PipelineState, Action))
        ensures
            (next.0@, next.1@) == event_step(self@, event@),
    {
        match self {
            PipelineState::Recording => match event {
                Event::CaptureStartFailed => (
                    PipelineState::Idle,
                    Action::Finish { reason: EndReason::CaptureStartFailed },
                ),
                _ => (PipelineState::Recording, Action::Nothing),
            },
            PipelineState::Cancelled => match event {
                Event::CaptureStopped { .. } => (PipelineState::Idle, Action::Nothing),
                Event::CaptureStopFailed => (PipelineState::Idle, Action::Nothing),
                _ => (PipelineState::Cancelled, Action::Nothing),
            },
            PipelineState::StoppingAndProcessing(stage) => stage.on_event(event),
            PipelineState::Idle => (PipelineState::Idle, Action::Nothing),
        }
    }

    /// Whether a recording is in progress.
    pub fn is_recording(&self) -> (recording: bool)
        ensures
            recording == (self@ is Recording),
    {
        match self {
            PipelineState::Recording => true,
            _ => false,
        }
    }

    /// Whether no session is under way.
    pub fn is_idle(&self) -> (idle: bool)
        ensures
            idle == (self@ is Idle),
    {
        match self {
            PipelineState::Idle => true,
            _ => false,
        }
    }
}

/// Recording starts only from idle, on a press of the record key.
pub proof fn law_start_only_from_idle(
    state: PipelineStateView,
    key: Key,
    edge: Edge,
    cfg: AppSettingsView,
)
    ensures
        hotkey_step(state, key, edge, cfg).1 is StartCapture <==> state is Idle && key
            == Key::Record && edge == Edge::Pressed,
        hotkey_step(state, key, edge, cfg).0 is Recording ==> state is Idle || state is Recording,
{
}

/// The cancel key acts only in toggle mode while recording, and a cancelled
/// session never reaches the filter, the transcriber or delivery: whatever is
/// reported next, it asks for nothing and ends idle.
pub proof fn law_cancel_discards(
    state: PipelineStateView,
    edge: Edge,
    cfg: AppSettingsView,
    event: EventView,
)
    ensures
        hotkey_step(state, Key::Cancel, edge, cfg).0 is Cancelled <==> state is Cancelled || (
        state is Recording && edge == Edge::Pressed && !cfg.push_to_talk),
        hotkey_step(state, Key::Cancel, edge, cfg).1 is DiscardCapture ==> state is Recording,
        event_step(PipelineStateView::Cancelled, event).1 is Nothing,
        event_step(PipelineStateView::Cancelled, event).0 is Cancelled || event_step(
            PipelineStateView::Cancelled,
            event,
        ).0 is Idle,
{
}

/// Requests follow the pipeline's order: silence filtering is asked for only
/// on a non-empty buffer from a stopped capture, and transcription only on a
/// non-empty result of filtering.
pub proof fn law_requests_follow_their_replies(state: PipelineStateView, event: EventView)
    ensures
        event_step(state, event).1 is FilterSilence ==> state
            is StoppingAndProcessing && state->StoppingAndProcessing_0 is Stopping && event
            is CaptureStopped && event->CaptureStopped_samples > 0,
        event_step(state, event).1 is Transcribe ==> state is StoppingAndProcessing
            && state->StoppingAndProcessing_0 is Filtering && ((event is Filtered
            && event->Filtered_kept > 0) || (event is FilterUnavailable
            && event->FilterUnavailable_padded > 0)),
        event_step(state, event).1 is Rewrite ==> state is StoppingAndProcessing
            && state->StoppingAndProcessing_0 is FetchingCredential && event is CredentialFound,
{
}

/// A session that ends without text ends idle, and nothing is delivered on
/// the way: a step that gives a reason for ending never delivers.
pub proof fn law_failures_end_idle(state: PipelineStateView, event: EventView)
    ensures
        event_step(state, event).1 is Finish ==> event_step(state, event).0 is Idle,
        (event is CaptureStopFailed || event is TranscriptionFailed || event is DeliveryFailed
            || event is CaptureStartFailed) ==> !(event_step(state, event).1 is Deliver),
{
}

/// No failure of the rewrite stage surfaces: a missing credential or a failed
/// request delivers the transcript exactly as transcription produced it.
pub proof fn law_rewrite_falls_back(
    transcript: Seq<char>,
    model: LlmModelView,
    system_prompt: Seq<char>,
    method: Delivery,
    error: RewriteError,
)
    ensures
        stage_step(
            StageView::Rewriting { transcript, method },
            EventView::RewriteFailed { error },
        ) == deliver(transcript, method, Some(Fallback::RewriteFailed(error))),
        stage_step(
            StageView::FetchingCredential { transcript, model, system_prompt, method },
            EventView::CredentialMissing,
        ) == deliver(transcript, method, Some(Fallback::NoCredential)),
{
}

/// Under the standard mode a transcript is never rewritten: the plan is to
/// deliver it as it is, and a session under such a plan asks for no
/// credential.
pub proof fn law_standard_mode_never_rewrites(cfg: AppSettingsView, text: Seq<char>)
    requires
        cfg.active_mode == standard_id(),
    ensures
        plan_rewrite(cfg) == (RewritePlanView::Direct { note: None }),
        text.len() > 0 ==> stage_step(
            StageView::Transcribing { run: run_config(cfg) },
            EventView::Transcribed { text },
        ) == deliver(text, delivery_for(cfg.auto_paste), None),
{
}

} // verus!
