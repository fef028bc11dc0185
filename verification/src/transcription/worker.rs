//! Lifecycle of the transcription worker: one model, loaded on first use,
//! replaced on request, one request at a time.
//!
//! The worker decides; its driver loads the model, runs inference and sends
//! the replies, and reports back what came of each.

use vstd::prelude::*;
use crate::text::{opt_text, texts};
use crate::transcription::whisper::{assemble_transcript, bias_prompt, prompt_for, transcript_of};
use crate::transcription::{ReloadError, TranscribeError};

verus! {

/// What a transcription request carries besides its audio.
#[derive(Debug)]
pub struct TranscriptionRequest {
    /// Number of samples in the buffer to transcribe.
    pub samples: usize,
    /// Language to transcribe in; `None` lets the model detect it.
    pub language: Option<String>,
    /// Words and phrases to bias recognition toward.
    pub vocabulary: Vec<String>,
}

/// Mathematical value of a [`TranscriptionRequest`].
pub struct TranscriptionRequestView {
    pub samples: usize,
    pub language: Option<Seq<char>>,
    pub vocabulary: Seq<Seq<char>>,
}

impl View for TranscriptionRequest {
    type V = TranscriptionRequestView;

    open spec fn view(&self) -> TranscriptionRequestView {
        TranscriptionRequestView {
            samples: self.samples,
            language: opt_text(self.language),
            vocabulary: texts(self.vocabulary@),
        }
    }
}

/// What the worker is busy with.
#[derive(Debug)]
pub enum Activity {
    /// Nothing: the next command can be taken from the queue.
    Waiting,
    /// The model is being loaded for a request that found none.
    LoadingFor { request: TranscriptionRequest },
    /// Inference is running.
    Inferring,
    /// The model is being replaced.
    Reloading,
    /// The worker has shut down.
    Stopped,
}

/// Mathematical value of an [`Activity`].
pub enum ActivityView {
    Waiting,
    LoadingFor { request: TranscriptionRequestView },
    Inferring,
    Reloading,
    Stopped,
}

impl View for Activity {
    type V = ActivityView;

    open spec fn view(&self) -> ActivityView {
        match *self {
            Activity::Waiting => ActivityView::Waiting,
            Activity::LoadingFor { request } => ActivityView::LoadingFor { request: request@ },
            Activity::Inferring => ActivityView::Inferring,
            Activity::Reloading => ActivityView::Reloading,
            Activity::Stopped => ActivityView::Stopped,
        }
    }
}

/// The transcription worker's state.
#[derive(Debug)]
pub struct TranscriptionWorker {
    /// Where the model is loaded from.
    pub model_path: String,
    /// Whether a model is loaded.
    pub loaded: bool,
    pub activity: Activity,
}

/// Mathematical value of a [`TranscriptionWorker`].
pub struct TranscriptionWorkerView {
    pub model_path: Seq<char>,
    pub loaded: bool,
    pub activity: ActivityView,
}

impl View for TranscriptionWorker {
    type V = TranscriptionWorkerView;

    open spec fn view(&self) -> TranscriptionWorkerView {
        TranscriptionWorkerView {
            model_path: self.model_path@,
            loaded: self.loaded,
            activity: self.activity@,
        }
    }
}

/// What reaches the worker: commands from its queue and the outcomes of the
/// tasks it handed out.
#[derive(Debug)]
pub enum WorkerEvent {
    Transcribe { request: TranscriptionRequest },
    ReloadModel { model_path: String },
    /// A shutdown command arrived, or the queue was closed.
    Shutdown,
    ModelLoaded,
    ModelLoadFailed,
    /// Inference finished; `segments` holds the text of each segment in order.
    Inferred { segments: Vec<String> },
    InferenceFailed,
}

/// Mathematical value of a [`WorkerEvent`].
pub enum WorkerEventView {
    Transcribe { request: TranscriptionRequestView },
    ReloadModel { model_path: Seq<char> },
    Shutdown,
    ModelLoaded,
    ModelLoadFailed,
    Inferred { segments: Seq<Seq<char>> },
    InferenceFailed,
}

impl View for WorkerEvent {
    type V = WorkerEventView;

    open spec fn view(&self) -> WorkerEventView {
        match *self {
            WorkerEvent::Transcribe { request } => WorkerEventView::Transcribe {
                request: request@,
            },
            WorkerEvent::ReloadModel { model_path } => WorkerEventView::ReloadModel {
                model_path: model_path@,
            },
            WorkerEvent::Shutdown => WorkerEventView::Shutdown,
            WorkerEvent::ModelLoaded => WorkerEventView::ModelLoaded,
            WorkerEvent::ModelLoadFailed => WorkerEventView::ModelLoadFailed,
            WorkerEvent::Inferred { segments } => WorkerEventView::Inferred {
                segments: texts(segments@),
            },
            WorkerEvent::InferenceFailed => WorkerEventView::InferenceFailed,
        }
    }
}

/// What the worker's driver is to do next.
#[derive(Debug)]
pub enum WorkerTask {
    /// Nothing: take the next command when the worker waits.
    Nothing,
    /// Drop the model held, if any, and load the one at `path`.
    LoadModel { path: String },
    /// Run inference on the request's audio.
    Infer { language: Option<String>, prompt: Option<String> },
    /// Answer the transcription request.
    ReplyTranscript { result: Result<String, TranscribeError> },
    /// Answer the reload request.
    ReplyReload { outcome: Result<(), ReloadError> },
    /// Leave the processing loop.
    Exit,
}

/// Mathematical value of a [`WorkerTask`].
pub enum WorkerTaskView {
    Nothing,
    LoadModel { path: Seq<char> },
    Infer { language: Option<Seq<char>>, prompt: Option<Seq<char>> },
    ReplyTranscript { result: Result<Seq<char>, TranscribeError> },
    ReplyReload { outcome: Result<(), ReloadError> },
    Exit,
}

impl View for WorkerTask {
    type V = WorkerTaskView;

    open spec fn view(&self) -> WorkerTaskView {
        match *self {
            WorkerTask::Nothing => WorkerTaskView::Nothing,
            WorkerTask::LoadModel { path } => WorkerTaskView::LoadModel { path: path@ },
            WorkerTask::Infer { language, prompt } => WorkerTaskView::Infer {
                language: opt_text(language),
                prompt: opt_text(prompt),
            },
            WorkerTask::ReplyTranscript { result } => WorkerTaskView::ReplyTranscript {
                result: match result {
                    Ok(text) => Ok(text@),
                    Err(error) => Err(error),
                },
            },
            WorkerTask::ReplyReload { outcome } => WorkerTaskView::ReplyReload { outcome },
            WorkerTask::Exit => WorkerTaskView::Exit,
        }
    }
}

/// The inference task for a request.
pub open spec fn infer(request: TranscriptionRequestView) -> WorkerTaskView {
    WorkerTaskView::Infer {
        language: request.language,
        prompt: prompt_for(request.vocabulary),
    }
}

/// The worker's reaction to an event.
///
/// While waiting, it takes commands: an empty buffer is refused before the
/// model is touched; a request that finds no model has it loaded first; a
/// reload drops the model held and loads from the new path. While busy, it
/// answers only the outcome of the task it handed out. A failed load, for a
/// request or for a reload, leaves the worker without a model.
pub open spec fn worker_step(worker: TranscriptionWorkerView, event: WorkerEventView) -> (
    TranscriptionWorkerView,
    WorkerTaskView,
) {
    let waiting = |loaded: bool|
        TranscriptionWorkerView {
            model_path: worker.model_path,
            loaded,
            activity: ActivityView::Waiting,
        };
    match (worker.activity, event) {
        (ActivityView::Waiting, WorkerEventView::Transcribe { request }) => if request.samples
            == 0 {
            (
                worker,
                WorkerTaskView::ReplyTranscript { result: Err(TranscribeError::EmptyAudio) },
            )
        } else if worker.loaded {
            (
                TranscriptionWorkerView {
                    model_path: worker.model_path,
                    loaded: true,
                    activity: ActivityView::Inferring,
                },
                infer(request),
            )
        } else {
            (
                TranscriptionWorkerView {
                    model_path: worker.model_path,
                    loaded: false,
                    activity: ActivityView::LoadingFor { request },
                },
                WorkerTaskView::LoadModel { path: worker.model_path },
            )
        },
        (ActivityView::Waiting, WorkerEventView::ReloadModel { model_path }) => (
            TranscriptionWorkerView { model_path, loaded: false, activity: ActivityView::Reloading },
            WorkerTaskView::LoadModel { path: model_path },
        ),
        (ActivityView::Waiting, WorkerEventView::Shutdown) => (
            TranscriptionWorkerView {
                model_path: worker.model_path,
                loaded: worker.loaded,
                activity: ActivityView::Stopped,
            },
            WorkerTaskView::Exit,
        ),
        (ActivityView::LoadingFor { request }, WorkerEventView::ModelLoaded) => (
            TranscriptionWorkerView {
                model_path: worker.model_path,
                loaded: true,
                activity: ActivityView::Inferring,
            },
            infer(request),
        ),
        (ActivityView::LoadingFor { .. }, WorkerEventView::ModelLoadFailed) => (
            waiting(false),
            WorkerTaskView::ReplyTranscript { result: Err(TranscribeError::ModelLoadFailed) },
        ),
        (ActivityView::Inferring, WorkerEventView::Inferred { segments }) => (
            waiting(worker.loaded),
            WorkerTaskView::ReplyTranscript { result: Ok(transcript_of(segments)) },
        ),
        (ActivityView::Inferring, WorkerEventView::InferenceFailed) => (
            waiting(worker.loaded),
            WorkerTaskView::ReplyTranscript { result: Err(TranscribeError::InferenceFailed) },
        ),
        (ActivityView::Reloading, WorkerEventView::ModelLoaded) => (
            waiting(true),
            WorkerTaskView::ReplyReload { outcome: Ok(()) },
        ),
        (ActivityView::Reloading, WorkerEventView::ModelLoadFailed) => (
            waiting(false),
            WorkerTaskView::ReplyReload { outcome: Err(ReloadError::ReloadFailed) },
        ),
        _ => (worker, WorkerTaskView::Nothing),
    }
}

impl TranscriptionWorker {
    /// A worker that will load its model from `model_path` on first use.
    pub fn new(model_path: String) -> (worker: Self)
        ensures
            worker@ == (TranscriptionWorkerView {
                model_path: model_path@,
                loaded: false,
                activity: ActivityView::Waiting,
            }),
    {
        TranscriptionWorker { model_path, loaded: false, activity: Activity::Waiting }
    }

    /// Whether a model is loaded.
    pub fn is_loaded(&self) -> (loaded: bool)
        ensures
            loaded == self@.loaded,
    {
        self.loaded
    }

    /// Whether the next command can be taken from the queue.
    pub fn is_waiting(&self) -> (waiting: bool)
        ensures
            waiting == (self@.activity is Waiting),
    {
        match self.activity {
            Activity::Waiting => true,
            _ => false,
        }
    }

    /// Applies an event and tells the driver what to do next.
    pub fn step(self, event: WorkerEvent) -> (next: (TranscriptionWorker, WorkerTask))
        ensures
            (next.0@, next.1@) == worker_step(self@, event@),
    {
        let TranscriptionWorker { model_path, loaded, activity } = self;
        match activity {
            Activity::Waiting => match event {
                WorkerEvent::Transcribe { request } => if request.samples == 0 {
                    (
                        TranscriptionWorker { model_path, loaded, activity: Activity::Waiting },
                        WorkerTask::ReplyTranscript { result: Err(TranscribeError::EmptyAudio) },
                    )
                } else if loaded {
                    let prompt = bias_prompt(&request.vocabulary);
                    (
                        TranscriptionWorker { model_path, loaded, activity: Activity::Inferring },
                        WorkerTask::Infer { language: request.language, prompt },
                    )
                } else {
                    let path = model_path.clone();
                    (
                        TranscriptionWorker {
                            model_path,
                            loaded,
                            activity: Activity::LoadingFor { request },
                        },
                        WorkerTask::LoadModel { path },
                    )
                },
                WorkerEvent::ReloadModel { model_path: new_path } => {
                    let path = new_path.clone();
                    (
                        TranscriptionWorker {
                            model_path: new_path,
                            loaded: false,
                            activity: Activity::Reloading,
                        },
                        WorkerTask::LoadModel { path },
                    )
                },
                WorkerEvent::Shutdown => (
                    TranscriptionWorker { model_path, loaded, activity: Activity::Stopped },
                    WorkerTask::Exit,
                ),
                _ => (
                    TranscriptionWorker { model_path, loaded, activity: Activity::Waiting },
                    WorkerTask::Nothing,
                ),
            },
            Activity::LoadingFor { request } => match event {
                WorkerEvent::ModelLoaded => {
                    let prompt = bias_prompt(&request.vocabulary);
                    (
                        TranscriptionWorker {
                            model_path,
                            loaded: true,
                            activity: Activity::Inferring,
                        },
                        WorkerTask::Infer { language: request.language, prompt },
                    )
                },
                WorkerEvent::ModelLoadFailed => (
                    TranscriptionWorker { model_path, loaded: false, activity: Activity::Waiting },
                    WorkerTask::ReplyTranscript { result: Err(TranscribeError::ModelLoadFailed) },
                ),
                _ => (
                    TranscriptionWorker {
                        model_path,
                        loaded,
                        activity: Activity::LoadingFor { request },
                    },
                    WorkerTask::Nothing,
                ),
            },
            Activity::Inferring => match event {
                WorkerEvent::Inferred { segments } => {
                    let text = assemble_transcript(&segments);
                    (
                        TranscriptionWorker { model_path, loaded, activity: Activity::Waiting },
                        WorkerTask::ReplyTranscript { result: Ok(text) },
                    )
                },
                WorkerEvent::InferenceFailed => (
                    TranscriptionWorker { model_path, loaded, activity: Activity::Waiting },
                    WorkerTask::ReplyTranscript { result: Err(TranscribeError::InferenceFailed) },
                ),
                _ => (
                    TranscriptionWorker { model_path, loaded, activity: Activity::Inferring },
                    WorkerTask::Nothing,
                ),
            },
            Activity::Reloading => match event {
                WorkerEvent::ModelLoaded => (
                    TranscriptionWorker { model_path, loaded: true, activity: Activity::Waiting },
                    WorkerTask::ReplyReload { outcome: Ok(()) },
                ),
                WorkerEvent::ModelLoadFailed => (
                    TranscriptionWorker { model_path, loaded: false, activity: Activity::Waiting },
                    WorkerTask::ReplyReload { outcome: Err(ReloadError::ReloadFailed) },
                ),
                _ => (
                    TranscriptionWorker { model_path, loaded, activity: Activity::Reloading },
                    WorkerTask::Nothing,
                ),
            },
            Activity::Stopped => (
                TranscriptionWorker { model_path, loaded, activity: Activity::Stopped },
                WorkerTask::Nothing,
            ),
        }
    }
}

/// A request with an empty buffer is refused with `EmptyAudio` whether or
/// not a model is loaded, and leaves the worker as it was: no load and no
/// inference is asked for.
pub proof fn law_empty_audio_never_reaches_model(
    worker: TranscriptionWorkerView,
    request: TranscriptionRequestView,
)
    requires
        worker.activity is Waiting,
        request.samples == 0,
    ensures
        worker_step(worker, WorkerEventView::Transcribe { request }) == (
            worker,
            WorkerTaskView::ReplyTranscript { result: Err(TranscribeError::EmptyAudio) },
        ),
{
}

/// A failed reload leaves the worker without a model, whatever it held
/// before; the next request then asks for a load from the new path, and
/// fails with `ModelLoadFailed` if that load fails too.
pub proof fn law_failed_reload_leaves_no_model(
    worker: TranscriptionWorkerView,
    model_path: Seq<char>,
    request: TranscriptionRequestView,
)
    requires
        worker.activity is Waiting,
        request.samples > 0,
    ensures
        ({
            let reloading = worker_step(worker, WorkerEventView::ReloadModel { model_path });
            let failed = worker_step(reloading.0, WorkerEventView::ModelLoadFailed);
            let retried = worker_step(failed.0, WorkerEventView::Transcribe { request });
            let failed_again = worker_step(retried.0, WorkerEventView::ModelLoadFailed);
            &&& reloading.1 == (WorkerTaskView::LoadModel { path: model_path })
            &&& failed.1 == (WorkerTaskView::ReplyReload { outcome: Err(ReloadError::ReloadFailed) })
            &&& !failed.0.loaded
            &&& failed.0.activity is Waiting
            &&& retried.1 == (WorkerTaskView::LoadModel { path: model_path })
            &&& failed_again.1 == (WorkerTaskView::ReplyTranscript {
                result: Err(TranscribeError::ModelLoadFailed),
            })
            &&& !failed_again.0.loaded
        }),
{
}

} // verus!
