//! The settings record and its parts.

use vstd::prelude::*;
use crate::text::{
    contains, first_match, has_substring, lemma_first_match, opt_index, opt_text, texts,
};

verus! {

/// The kind of service that answers rewrite requests for a model.
#[derive(Debug, Clone, Copy, PartialEq, Eq, Structural)]
pub enum LlmServiceType {
    OpenRouter,
    Gemini,
    OpenAI,
    LMStudio,
    Ollama,
}

/// The service kind that an endpoint address stands for.
///
/// Markers are tried in a fixed order; an address that carries none of them
/// is taken to be an OpenRouter endpoint.
pub open spec fn service_for_url(url: Seq<char>) -> LlmServiceType {
    if has_substring(url, "openrouter.ai"@) {
        LlmServiceType::OpenRouter
    } else if has_substring(url, "generativelanguage.googleapis.com"@) {
        LlmServiceType::Gemini
    } else if has_substring(url, "localhost:1234"@) || has_substring(url, "127.0.0.1:1234"@) {
        LlmServiceType::LMStudio
    } else if has_substring(url, "localhost:11434"@) || has_substring(url, "127.0.0.1:11434"@) {
        LlmServiceType::Ollama
    } else if has_substring(url, "api.openai.com"@) {
        LlmServiceType::OpenAI
    } else {
        LlmServiceType::OpenRouter
    }
}

impl Default for LlmServiceType {
    fn default() -> (kind: Self)
        ensures
            kind == LlmServiceType::OpenRouter,
    {
        LlmServiceType::OpenRouter
    }
}

impl LlmServiceType {
    /// Whether requests to this kind of service must carry a credential.
    pub open spec fn needs_key(self) -> bool {
        self != LlmServiceType::LMStudio && self != LlmServiceType::Ollama
    }

    /// Detects the service kind from an endpoint address.
    pub fn from_url(url: &str) -> (kind: Self)
        ensures
            kind == service_for_url(url@),
    {
        if contains(url, "openrouter.ai") {
            LlmServiceType::OpenRouter
        } else if contains(url, "generativelanguage.googleapis.com") {
            LlmServiceType::Gemini
        } else if contains(url, "localhost:1234") || contains(url, "127.0.0.1:1234") {
            LlmServiceType::LMStudio
        } else if contains(url, "localhost:11434") || contains(url, "127.0.0.1:11434") {
            LlmServiceType::Ollama
        } else if contains(url, "api.openai.com") {
            LlmServiceType::OpenAI
        } else {
            LlmServiceType::OpenRouter
        }
    }

    /// Returns true if this service kind requires an API key; the two local
    /// services do not.
    pub fn requires_api_key(&self) -> (needed: bool)
        ensures
            needed == self.needs_key(),
    {
        match self {
            LlmServiceType::LMStudio | LlmServiceType::Ollama => false,
            _ => true,
        }
    }
}

/// Configuration of one rewrite model.
#[derive(Debug)]
pub struct LlmModel {
    pub id: String,
    pub name: String,
    pub api_url: String,
    pub model_name: String,
    pub service_type: LlmServiceType,
}

/// Mathematical value of an [`LlmModel`].
pub struct LlmModelView {
    pub id: Seq<char>,
    pub name: Seq<char>,
    pub api_url: Seq<char>,
    pub model_name: Seq<char>,
    pub service_type: LlmServiceType,
}

impl View for LlmModel {
    type V = LlmModelView;

    open spec fn view(&self) -> LlmModelView {
        LlmModelView {
            id: self.id@,
            name: self.name@,
            api_url: self.api_url@,
            model_name: self.model_name@,
            service_type: self.service_type,
        }
    }
}

impl Clone for LlmModel {
    fn clone(&self) -> (copy: Self)
        ensures
            copy == *self,
    {
        LlmModel {
            id: self.id.clone(),
            name: self.name.clone(),
            api_url: self.api_url.clone(),
            model_name: self.model_name.clone(),
            service_type: self.service_type,
        }
    }
}

/// Configuration of one execution mode: whether a transcript is rewritten,
/// by which model and under which prompt.
#[derive(Debug)]
pub struct ExecutionMode {
    pub id: String,
    pub name: String,
    /// `None` for a mode that delivers the transcript as it is.
    pub llm_model_id: Option<String>,
    pub system_prompt: String,
}

/// Mathematical value of an [`ExecutionMode`].
pub struct ExecutionModeView {
    pub id: Seq<char>,
    pub name: Seq<char>,
    pub llm_model_id: Option<Seq<char>>,
    pub system_prompt: Seq<char>,
}

impl View for ExecutionMode {
    type V = ExecutionModeView;

    open spec fn view(&self) -> ExecutionModeView {
        ExecutionModeView {
            id: self.id@,
            name: self.name@,
            llm_model_id: opt_text(self.llm_model_id),
            system_prompt: self.system_prompt@,
        }
    }
}

impl Clone for ExecutionMode {
    fn clone(&self) -> (copy: Self)
        ensures
            copy == *self,
    {
        let llm_model_id = match &self.llm_model_id {
            Some(id) => Some(id.clone()),
            None => None,
        };
        ExecutionMode {
            id: self.id.clone(),
            name: self.name.clone(),
            llm_model_id,
            system_prompt: self.system_prompt.clone(),
        }
    }
}

/// Identifier of the built-in mode that never rewrites.
pub open spec fn standard_id() -> Seq<char> {
    "standard"@
}

/// The built-in mode: no model, empty prompt.
pub open spec fn standard_mode() -> ExecutionModeView {
    ExecutionModeView {
        id: standard_id(),
        name: "Standard"@,
        llm_model_id: None,
        system_prompt: Seq::empty(),
    }
}

impl ExecutionMode {
    /// The built-in mode that never rewrites.
    pub fn standard() -> (mode: Self)
        ensures
            mode@ == standard_mode(),
    {
        ExecutionMode {
            id: "standard".to_owned(),
            name: "Standard".to_owned(),
            llm_model_id: None,
            system_prompt: String::new(),
        }
    }
}

/// The identifiers of a list of modes, in order.
pub open spec fn mode_ids(modes: Seq<ExecutionModeView>) -> Seq<Seq<char>> {
    modes.map_values(|m: ExecutionModeView| m.id)
}

/// The identifiers of a list of models, in order.
pub open spec fn model_ids(models: Seq<LlmModelView>) -> Seq<Seq<char>> {
    models.map_values(|m: LlmModelView| m.id)
}

/// The persisted settings record.
#[derive(Debug)]
pub struct AppSettings {
    pub hotkey: String,
    pub language: String,
    pub auto_paste: bool,
    pub model_name: String,
    /// `true`: hold the key to record; `false`: press once to start, again to stop.
    pub push_to_talk: bool,
    pub cancel_key: String,
    /// `None` selects the system's default input device.
    pub device_name: Option<String>,
    pub custom_words: Vec<String>,
    pub llm_models: Vec<LlmModel>,
    pub execution_modes: Vec<ExecutionMode>,
    pub active_mode: String,
}

/// Mathematical value of an [`AppSettings`].
pub struct AppSettingsView {
    pub hotkey: Seq<char>,
    pub language: Seq<char>,
    pub auto_paste: bool,
    pub model_name: Seq<char>,
    pub push_to_talk: bool,
    pub cancel_key: Seq<char>,
    pub device_name: Option<Seq<char>>,
    pub custom_words: Seq<Seq<char>>,
    pub llm_models: Seq<LlmModelView>,
    pub execution_modes: Seq<ExecutionModeView>,
    pub active_mode: Seq<char>,
}

impl View for AppSettings {
    type V = AppSettingsView;

    open spec fn view(&self) -> AppSettingsView {
        AppSettingsView {
            hotkey: self.hotkey@,
            language: self.language@,
            auto_paste: self.auto_paste,
            model_name: self.model_name@,
            push_to_talk: self.push_to_talk,
            cancel_key: self.cancel_key@,
            device_name: opt_text(self.device_name),
            custom_words: texts(self.custom_words@),
            llm_models: self.llm_models@.map_values(|m: LlmModel| m@),
            execution_modes: self.execution_modes@.map_values(|m: ExecutionMode| m@),
            active_mode: self.active_mode@,
        }
    }
}

/// The vocabulary a fresh installation starts with.
pub open spec fn default_words() -> Seq<Seq<char>> {
    seq!["Aymeric Bellavoine"@, "PPAT"@, "Harmonie Mutuelle"@]
}

/// The settings of a fresh installation.
pub open spec fn default_settings() -> AppSettingsView {
    AppSettingsView {
        hotkey: "Ctrl+Shift+R"@,
        language: "fr"@,
        auto_paste: true,
        model_name: "ggml-small-q5_1.bin"@,
        push_to_talk: false,
        cancel_key: "Escape"@,
        device_name: None,
        custom_words: default_words(),
        llm_models: Seq::empty(),
        execution_modes: seq![standard_mode()],
        active_mode: standard_id(),
    }
}

/// The identifier of the mode that is active in a settings file that names none.
pub fn default_active_mode() -> (id: String)
    ensures
        id@ == standard_id(),
{
    "standard".to_owned()
}

/// The vocabulary a fresh installation starts with.
pub fn default_custom_words() -> (words: Vec<String>)
    ensures
        texts(words@) == default_words(),
{
    let mut words: Vec<String> = Vec::new();
    words.push("Aymeric Bellavoine".to_owned());
    words.push("PPAT".to_owned());
    words.push("Harmonie Mutuelle".to_owned());
    assert(texts(words@) =~= default_words());
    words
}

impl AppSettings {
    /// A copy of the custom vocabulary.
    pub fn vocabulary(&self) -> (words: Vec<String>)
        ensures
            texts(words@) == self@.custom_words,
    {
        let words = self.custom_words.clone();
        assert(words@ =~= self.custom_words@);
        words
    }

    /// Position of the first execution mode with the given identifier.
    pub fn find_mode(&self, id: &str) -> (found: Option<usize>)
        ensures
            opt_index(found) == first_match(mode_ids(self@.execution_modes), id@),
            found matches Some(i) ==> i < self.execution_modes.len()
                && self.execution_modes[i as int].id@ == id@,
    {
        let wanted = id.to_owned();
        let ghost ids = mode_ids(self@.execution_modes);
        let mut i: usize = 0;
        while i < self.execution_modes.len()
            invariant
                i <= self.execution_modes.len(),
                wanted@ == id@,
                ids == mode_ids(self@.execution_modes),
                forall|j: int| 0 <= j < i ==> ids[j] != id@,
            decreases self.execution_modes.len() - i,
        {
            if self.execution_modes[i].id == wanted {
                proof {
                    lemma_first_match(ids, id@, i as int);
                }
                return Some(i);
            }
            i += 1;
        }
        None
    }

    /// Position of the first rewrite model with the given identifier.
    pub fn find_model(&self, id: &str) -> (found: Option<usize>)
        ensures
            opt_index(found) == first_match(model_ids(self@.llm_models), id@),
            found matches Some(i) ==> i < self.llm_models.len()
                && self.llm_models[i as int].id@ == id@,
    {
        let wanted = id.to_owned();
        let ghost ids = model_ids(self@.llm_models);
        let mut i: usize = 0;
        while i < self.llm_models.len()
            invariant
                i <= self.llm_models.len(),
                wanted@ == id@,
                ids == model_ids(self@.llm_models),
                forall|j: int| 0 <= j < i ==> ids[j] != id@,
            decreases self.llm_models.len() - i,
        {
            if self.llm_models[i].id == wanted {
                proof {
                    lemma_first_match(ids, id@, i as int);
                }
                return Some(i);
            }
            i += 1;
        }
        None
    }
}

impl Default for AppSettings {
    fn default() -> (settings: Self)
        ensures
            settings@ == default_settings(),
    {
        let mut execution_modes: Vec<ExecutionMode> = Vec::new();
        execution_modes.push(ExecutionMode::standard());
        let settings = AppSettings {
            hotkey: "Ctrl+Shift+R".to_owned(),
            language: "fr".to_owned(),
            auto_paste: true,
            model_name: "ggml-small-q5_1.bin".to_owned(),
            push_to_talk: false,
            cancel_key: "Escape".to_owned(),
            device_name: None,
            custom_words: default_custom_words(),
            llm_models: Vec::new(),
            execution_modes,
            active_mode: default_active_mode(),
        };
        assert(settings@.llm_models =~= Seq::empty());
        assert(settings@.execution_modes =~= seq![standard_mode()]);
        settings
    }
}

impl Clone for AppSettings {
    fn clone(&self) -> (copy: Self)
        ensures
            copy@ == self@,
    {
        let device_name = match &self.device_name {
            Some(name) => Some(name.clone()),
            None => None,
        };
        let copy = AppSettings {
            hotkey: self.hotkey.clone(),
            language: self.language.clone(),
            auto_paste: self.auto_paste,
            model_name: self.model_name.clone(),
            push_to_talk: self.push_to_talk,
            cancel_key: self.cancel_key.clone(),
            device_name,
            custom_words: self.custom_words.clone(),
            llm_models: self.llm_models.clone(),
            execution_modes: self.execution_modes.clone(),
            active_mode: self.active_mode.clone(),
        };
        assert(copy.custom_words@ =~= self.custom_words@);
        assert(copy.llm_models@ =~= self.llm_models@);
        assert(copy.execution_modes@ =~= self.execution_modes@);
        copy
    }
}

} // verus!
