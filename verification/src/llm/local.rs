//! Model listing for the rewrite services that run on this machine.

use vstd::prelude::*;
use vstd::string::StringExecFns;
use crate::text::conjoin;

verus! {

/// Port that LM Studio listens on unless told otherwise.
pub const LM_STUDIO_PORT: u16 = 1234;

/// Port that Ollama listens on unless told otherwise.
pub const OLLAMA_PORT: u16 = 11434;

/// Seconds allowed for a listing request.
pub const LISTING_TIMEOUT_SECS: u64 = 5;

/// A model as LM Studio lists it.
#[derive(Debug)]
pub struct LMStudioModel {
    pub id: String,
    pub model_type: String,
    /// `loaded` or `not-loaded`.
    pub state: String,
    pub architecture: Option<String>,
    pub max_context_length: Option<u32>,
}

impl Clone for LMStudioModel {
    fn clone(&self) -> (copy: Self)
        ensures
            copy == *self,
    {
        let architecture = match &self.architecture {
            Some(a) => Some(a.clone()),
            None => None,
        };
        LMStudioModel {
            id: self.id.clone(),
            model_type: self.model_type.clone(),
            state: self.state.clone(),
            architecture,
            max_context_length: self.max_context_length,
        }
    }
}

/// Details of a model as Ollama lists it.
#[derive(Debug)]
pub struct OllamaModelDetails {
    pub format: String,
    pub family: String,
    pub parameter_size: String,
    pub quantization_level: String,
}

impl Clone for OllamaModelDetails {
    fn clone(&self) -> (copy: Self)
        ensures
            copy == *self,
    {
        OllamaModelDetails {
            format: self.format.clone(),
            family: self.family.clone(),
            parameter_size: self.parameter_size.clone(),
            quantization_level: self.quantization_level.clone(),
        }
    }
}

/// A model as Ollama lists it.
#[derive(Debug)]
pub struct OllamaModel {
    pub name: String,
    /// Size of the model in bytes.
    pub size: u64,
    pub modified_at: String,
    pub details: Option<OllamaModelDetails>,
}

impl Clone for OllamaModel {
    fn clone(&self) -> (copy: Self)
        ensures
            copy == *self,
    {
        let details = match &self.details {
            Some(d) => Some(d.clone()),
            None => None,
        };
        OllamaModel {
            name: self.name.clone(),
            size: self.size,
            modified_at: self.modified_at.clone(),
            details,
        }
    }
}

/// A local rewrite service that can list its models.
#[derive(Debug, Clone, Copy, PartialEq, Eq, Structural)]
pub enum LocalService {
    LMStudio,
    Ollama,
}

/// Why a listing produced no models.
#[derive(Debug, Clone, Copy, PartialEq, Eq, Structural)]
pub enum ListingError {
    /// Nothing answers on the port: the service is not running.
    NotRunning,
    /// The request failed for another reason.
    RequestFailed,
    /// The answer could not be read.
    MalformedResponse,
}

/// The character of a decimal digit.
pub open spec fn digit_char(d: int) -> char {
    if d == 0 {
        '0'
    } else if d == 1 {
        '1'
    } else if d == 2 {
        '2'
    } else if d == 3 {
        '3'
    } else if d == 4 {
        '4'
    } else if d == 5 {
        '5'
    } else if d == 6 {
        '6'
    } else if d == 7 {
        '7'
    } else if d == 8 {
        '8'
    } else {
        '9'
    }
}

/// A number in decimal notation, without leading zeros.
pub open spec fn decimal(n: nat) -> Seq<char>
    decreases n,
{
    if n < 10 {
        seq![digit_char(n as int)]
    } else {
        decimal(n / 10).push(digit_char((n % 10) as int))
    }
}

fn digit_text(d: u16) -> (text: &'static str)
    requires
        d < 10,
    ensures
        text@ == seq![digit_char(d as int)],
{
    let text = match d {
        0 => "0",
        1 => "1",
        2 => "2",
        3 => "3",
        4 => "4",
        5 => "5",
        6 => "6",
        7 => "7",
        8 => "8",
        _ => "9",
    };
    proof {
        reveal_strlit("0");
        reveal_strlit("1");
        reveal_strlit("2");
        reveal_strlit("3");
        reveal_strlit("4");
        reveal_strlit("5");
        reveal_strlit("6");
        reveal_strlit("7");
        reveal_strlit("8");
        reveal_strlit("9");
        assert(text@ =~= seq![digit_char(d as int)]);
    }
    text
}

/// Writes a port number in decimal notation.
pub fn port_text(port: u16) -> (text: String)
    ensures
        text@ == decimal(port as nat),
    decreases port,
{
    if port < 10 {
        digit_text(port).to_owned()
    } else {
        let mut text = port_text(port / 10);
        text.append(digit_text(port % 10));
        assert(text@ =~= decimal((port / 10) as nat).push(digit_char((port % 10) as int)));
        text
    }
}

/// The port a listing goes to: the given one, or the service's usual port.
pub open spec fn listing_port(service: LocalService, port: Option<u16>) -> u16 {
    match port {
        Some(p) => p,
        None => match service {
            LocalService::LMStudio => LM_STUDIO_PORT,
            LocalService::Ollama => OLLAMA_PORT,
        },
    }
}

/// The address that lists the models of a local service.
pub open spec fn listing_url(service: LocalService, port: Option<u16>) -> Seq<char> {
    "http://localhost:"@ + decimal(listing_port(service, port) as nat) + match service {
        LocalService::LMStudio => "/api/v0/models"@,
        LocalService::Ollama => "/api/tags"@,
    }
}

/// Builds the address that lists the models of a local service.
pub fn models_endpoint(service: LocalService, port: Option<u16>) -> (url: String)
    ensures
        url@ == listing_url(service, port),
{
    let port = match port {
        Some(p) => p,
        None => match service {
            LocalService::LMStudio => LM_STUDIO_PORT,
            LocalService::Ollama => OLLAMA_PORT,
        },
    };
    let digits = port_text(port);
    let mut url = conjoin("http://localhost:", digits.as_str());
    match service {
        LocalService::LMStudio => url.append("/api/v0/models"),
        LocalService::Ollama => url.append("/api/tags"),
    }
    url
}

/// The error that a listing request failing in transit stands for.
pub fn listing_error(connect_failed: bool) -> (error: ListingError)
    ensures
        error == if connect_failed {
            ListingError::NotRunning
        } else {
            ListingError::RequestFailed
        },
{
    if connect_failed {
        ListingError::NotRunning
    } else {
        ListingError::RequestFailed
    }
}

} // verus!
