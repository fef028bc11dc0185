//! The rewrite stage: what is sent to a text model for a transcript, and what
//! its answer means.
//!
//! Sending and receiving are left to the caller. This module fixes the
//! request for each kind of service and reads the parts of the answer that
//! the caller has decoded.

use vstd::prelude::*;
use vstd::string::StringExecFns;

pub mod local;

use crate::config::settings::{LlmModel, LlmModelView, LlmServiceType};
use crate::text::{conjoin, contains, has_substring, opt_text, texts, trim_end, trimmed_end};

verus! {

/// Seconds allowed for a request to a hosted service.
pub const HOSTED_TIMEOUT_SECS: u64 = 30;

/// Seconds allowed for a request to a service on this machine.
pub const LOCAL_TIMEOUT_SECS: u64 = 300;

/// Seconds allowed for connecting to a service on this machine.
pub const LOCAL_CONNECT_TIMEOUT_SECS: u64 = 10;

/// Why a rewrite request produced no text.
#[derive(Debug, Clone, Copy, PartialEq, Eq, Structural)]
pub enum RewriteError {
    /// The service did not answer within the time allowed.
    Timeout,
    /// No connection to the service could be made.
    ConnectFailed,
    /// The request failed in transit for another reason.
    RequestFailed,
    /// The service answered with a status outside the success range.
    HttpStatus(u16),
    /// The answer could not be read, or held no text.
    MalformedResponse,
}

/// Who speaks in a chat message.
#[derive(Debug, Clone, Copy, PartialEq, Eq, Structural)]
pub enum Role {
    System,
    User,
}

/// One message of a chat request.
#[derive(Debug)]
pub struct ChatMessage {
    pub role: Role,
    pub content: String,
}

/// Mathematical value of a [`ChatMessage`].
pub struct ChatMessageView {
    pub role: Role,
    pub content: Seq<char>,
}

impl View for ChatMessage {
    type V = ChatMessageView;

    open spec fn view(&self) -> ChatMessageView {
        ChatMessageView { role: self.role, content: self.content@ }
    }
}

/// The payload of a rewrite request.
#[derive(Debug)]
pub enum RequestBody {
    /// A chat completion: the model's name and the messages in order.
    Chat { model: String, messages: Vec<ChatMessage> },
    /// A single block of text to generate from.
    Contents { text: String },
}

/// Mathematical value of a [`RequestBody`].
pub enum RequestBodyView {
    Chat { model: Seq<char>, messages: Seq<ChatMessageView> },
    Contents { text: Seq<char> },
}

impl View for RequestBody {
    type V = RequestBodyView;

    open spec fn view(&self) -> RequestBodyView {
        match *self {
            RequestBody::Chat { model, messages } => RequestBodyView::Chat {
                model: model@,
                messages: messages@.map_values(|m: ChatMessage| m@),
            },
            RequestBody::Contents { text } => RequestBodyView::Contents { text: text@ },
        }
    }
}

/// Everything needed to send one rewrite request.
#[derive(Debug)]
pub struct RewriteRequest {
    /// The address to post to.
    pub url: String,
    /// The token of the bearer authorization header, where one is sent.
    pub bearer: Option<String>,
    pub body: RequestBody,
    /// Seconds after which the whole request is given up.
    pub timeout_secs: u64,
    /// Seconds after which connecting is given up, where that is bounded
    /// apart from the whole request.
    pub connect_timeout_secs: Option<u64>,
}

/// Mathematical value of a [`RewriteRequest`].
pub struct RewriteRequestView {
    pub url: Seq<char>,
    pub bearer: Option<Seq<char>>,
    pub body: RequestBodyView,
    pub timeout_secs: u64,
    pub connect_timeout_secs: Option<u64>,
}

impl View for RewriteRequest {
    type V = RewriteRequestView;

    open spec fn view(&self) -> RewriteRequestView {
        RewriteRequestView {
            url: self.url@,
            bearer: opt_text(self.bearer),
            body: self.body@,
            timeout_secs: self.timeout_secs,
            connect_timeout_secs: self.connect_timeout_secs,
        }
    }
}

/// The messages of a chat request: the system prompt first unless it is
/// empty, then the text to rewrite.
pub open spec fn chat_messages(system_prompt: Seq<char>, user_text: Seq<char>) -> Seq<
    ChatMessageView,
> {
    let user = ChatMessageView { role: Role::User, content: user_text };
    if system_prompt.len() == 0 {
        seq![user]
    } else {
        seq![ChatMessageView { role: Role::System, content: system_prompt }, user]
    }
}

/// The single text of a generation request: the prompt, a blank line, the
/// text to rewrite; the text alone under an empty prompt.
pub open spec fn combined_text(system_prompt: Seq<char>, user_text: Seq<char>) -> Seq<char> {
    if system_prompt.len() == 0 {
        user_text
    } else {
        system_prompt + "\n\n"@ + user_text
    }
}

/// The address of a generation request: the configured address with the key
/// added as a query parameter.
pub open spec fn keyed_url(api_url: Seq<char>, api_key: Seq<char>) -> Seq<char> {
    if has_substring(api_url, "?"@) {
        api_url + "&key="@ + api_key
    } else {
        api_url + "?key="@ + api_key
    }
}

/// The chat address of a local Ollama service: the configured address where
/// it already names the chat endpoint, else that endpoint under the
/// configured base address.
pub open spec fn ollama_url(api_url: Seq<char>) -> Seq<char> {
    if has_substring(api_url, "/v1/chat/completions"@) {
        api_url
    } else {
        trimmed_end(api_url, '/') + "/v1/chat/completions"@
    }
}

/// The request that rewrites `user_text` with `model`.
pub open spec fn request_for(
    model: LlmModelView,
    api_key: Seq<char>,
    system_prompt: Seq<char>,
    user_text: Seq<char>,
) -> RewriteRequestView {
    let chat = RequestBodyView::Chat {
        model: model.model_name,
        messages: chat_messages(system_prompt, user_text),
    };
    match model.service_type {
        LlmServiceType::Gemini => RewriteRequestView {
            url: keyed_url(model.api_url, api_key),
            bearer: None,
            body: RequestBodyView::Contents { text: combined_text(system_prompt, user_text) },
            timeout_secs: HOSTED_TIMEOUT_SECS,
            connect_timeout_secs: None,
        },
        LlmServiceType::LMStudio => RewriteRequestView {
            url: model.api_url,
            bearer: None,
            body: chat,
            timeout_secs: LOCAL_TIMEOUT_SECS,
            connect_timeout_secs: Some(LOCAL_CONNECT_TIMEOUT_SECS),
        },
        LlmServiceType::Ollama => RewriteRequestView {
            url: ollama_url(model.api_url),
            bearer: None,
            body: chat,
            timeout_secs: LOCAL_TIMEOUT_SECS,
            connect_timeout_secs: Some(LOCAL_CONNECT_TIMEOUT_SECS),
        },
        LlmServiceType::OpenRouter | LlmServiceType::OpenAI => RewriteRequestView {
            url: model.api_url,
            bearer: Some(api_key),
            body: chat,
            timeout_secs: HOSTED_TIMEOUT_SECS,
            connect_timeout_secs: None,
        },
    }
}

/// Builds the messages of a chat request.
pub fn build_messages(system_prompt: &str, user_text: &str) -> (messages: Vec<ChatMessage>)
    ensures
        messages@.map_values(|m: ChatMessage| m@) == chat_messages(system_prompt@, user_text@),
{
    let mut messages: Vec<ChatMessage> = Vec::new();
    if !system_prompt.is_empty() {
        messages.push(ChatMessage { role: Role::System, content: system_prompt.to_owned() });
    }
    messages.push(ChatMessage { role: Role::User, content: user_text.to_owned() });
    assert(messages@.map_values(|m: ChatMessage| m@) =~= chat_messages(
        system_prompt@,
        user_text@,
    ));
    messages
}

/// Builds the request that rewrites `user_text` with `model`.
pub fn build_request(model: &LlmModel, api_key: &str, system_prompt: &str, user_text: &str) -> (
    request: RewriteRequest
)
    ensures
        request@ == request_for(model@, api_key@, system_prompt@, user_text@),
{
    match model.service_type {
        LlmServiceType::Gemini => {
            let text = if system_prompt.is_empty() {
                user_text.to_owned()
            } else {
                let mut text = conjoin(system_prompt, "\n\n");
                text.append(user_text);
                text
            };
            let mut url = if contains(model.api_url.as_str(), "?") {
                conjoin(model.api_url.as_str(), "&key=")
            } else {
                conjoin(model.api_url.as_str(), "?key=")
            };
            url.append(api_key);
            RewriteRequest {
                url,
                bearer: None,
                body: RequestBody::Contents { text },
                timeout_secs: HOSTED_TIMEOUT_SECS,
                connect_timeout_secs: None,
            }
        },
        LlmServiceType::LMStudio => RewriteRequest {
            url: model.api_url.clone(),
            bearer: None,
            body: RequestBody::Chat {
                model: model.model_name.clone(),
                messages: build_messages(system_prompt, user_text),
            },
            timeout_secs: LOCAL_TIMEOUT_SECS,
            connect_timeout_secs: Some(LOCAL_CONNECT_TIMEOUT_SECS),
        },
        LlmServiceType::Ollama => {
            let url = if contains(model.api_url.as_str(), "/v1/chat/completions") {
                model.api_url.clone()
            } else {
                conjoin(trim_end(model.api_url.as_str(), '/'), "/v1/chat/completions")
            };
            RewriteRequest {
                url,
                bearer: None,
                body: RequestBody::Chat {
                    model: model.model_name.clone(),
                    messages: build_messages(system_prompt, user_text),
                },
                timeout_secs: LOCAL_TIMEOUT_SECS,
                connect_timeout_secs: Some(LOCAL_CONNECT_TIMEOUT_SECS),
            }
        },
        LlmServiceType::OpenRouter | LlmServiceType::OpenAI => RewriteRequest {
            url: model.api_url.clone(),
            bearer: Some(api_key.to_owned()),
            body: RequestBody::Chat {
                model: model.model_name.clone(),
                messages: build_messages(system_prompt, user_text),
            },
            timeout_secs: HOSTED_TIMEOUT_SECS,
            connect_timeout_secs: None,
        },
    }
}

/// The error that a request failing in transit stands for. A failure that
/// is a timeout counts as one even when it happened while connecting.
pub fn transport_error(timed_out: bool, connect_failed: bool) -> (error: RewriteError)
    ensures
        error == if timed_out {
            RewriteError::Timeout
        } else if connect_failed {
            RewriteError::ConnectFailed
        } else {
            RewriteError::RequestFailed
        },
{
    if timed_out {
        RewriteError::Timeout
    } else if connect_failed {
        RewriteError::ConnectFailed
    } else {
        RewriteError::RequestFailed
    }
}

/// The texts of a decoded answer, as far as a rewrite reads them.
#[derive(Debug)]
pub enum ResponseBody {
    /// A chat completion: the content of each choice, in order.
    Chat { choices: Vec<String> },
    /// A generation: for each candidate, in order, the texts of its parts.
    Candidates { parts: Vec<Vec<String>> },
}

/// Mathematical value of a [`ResponseBody`].
pub enum ResponseBodyView {
    Chat { choices: Seq<Seq<char>> },
    Candidates { parts: Seq<Seq<Seq<char>>> },
}

impl View for ResponseBody {
    type V = ResponseBodyView;

    open spec fn view(&self) -> ResponseBodyView {
        match *self {
            ResponseBody::Chat { choices } => ResponseBodyView::Chat {
                choices: texts(choices@),
            },
            ResponseBody::Candidates { parts } => ResponseBodyView::Candidates {
                parts: parts@.map_values(|c: Vec<String>| texts(c@)),
            },
        }
    }
}

/// Whether a status code reports success.
pub open spec fn is_success(status: u16) -> bool {
    200 <= status < 300
}

/// The rewritten text that an answer carries: the content of the first
/// choice, or the first part of the first candidate.
pub open spec fn first_text(body: ResponseBodyView) -> Option<Seq<char>> {
    match body {
        ResponseBodyView::Chat { choices } => if choices.len() > 0 {
            Some(choices[0])
        } else {
            None
        },
        ResponseBodyView::Candidates { parts } => if parts.len() > 0 && parts[0].len() > 0 {
            Some(parts[0][0])
        } else {
            None
        },
    }
}

/// What an answer means. A status outside the success range is an error
/// whatever the body holds; a body that could not be decoded (`None`), or
/// that holds no text, is malformed.
pub open spec fn response_text(status: u16, body: Option<ResponseBodyView>) -> Result<
    Seq<char>,
    RewriteError,
> {
    if !is_success(status) {
        Err(RewriteError::HttpStatus(status))
    } else {
        match body {
            None => Err(RewriteError::MalformedResponse),
            Some(body) => match first_text(body) {
                Some(text) => Ok(text),
                None => Err(RewriteError::MalformedResponse),
            },
        }
    }
}

/// The view of a decoded answer that may be missing.
pub open spec fn opt_body(body: Option<ResponseBody>) -> Option<ResponseBodyView> {
    match body {
        Some(body) => Some(body@),
        None => None,
    }
}

/// The view of a rewrite's result.
pub open spec fn text_result(result: Result<String, RewriteError>) -> Result<
    Seq<char>,
    RewriteError,
> {
    match result {
        Ok(text) => Ok(text@),
        Err(error) => Err(error),
    }
}

/// Reads the rewritten text out of an answer.
pub fn read_response(status: u16, body: Option<ResponseBody>) -> (result: Result<
    String,
    RewriteError,
>)
    ensures
        text_result(result) == response_text(status, opt_body(body)),
{
    if status < 200 || status >= 300 {
        return Err(RewriteError::HttpStatus(status));
    }
    match body {
        None => Err(RewriteError::MalformedResponse),
        Some(ResponseBody::Chat { choices }) => if choices.len() > 0 {
            Ok(choices[0].clone())
        } else {
            Err(RewriteError::MalformedResponse)
        },
        Some(ResponseBody::Candidates { parts }) => if parts.len() > 0 && parts[0].len() > 0 {
            Ok(parts[0][0].clone())
        } else {
            Err(RewriteError::MalformedResponse)
        },
    }
}

} // verus!
