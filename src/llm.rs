//! The model back ends and the order in which they are tried.
//!
//! The requests themselves are sent by the caller; this module holds what
//! decides around them: which back end is tried next, what an answer or a
//! failure becomes, and the call budget of the hosted service.

use vstd::prelude::*;
use vstd::string::*;
use crate::text::{chars_of, starts_with, starts_with_exec, str_eq};
use crate::parser::{parse_failure, parse_model, parse_response};

verus! {

/// Why a back end gave no answer.
#[derive(Debug, Clone, PartialEq, Eq)]
pub enum LLMError {
    NetworkError(String),
    SerializationError(String),
    LocalModelError(String),
    ApiKeyError(String),
    ParsingError(String),
    RateLimitExceeded,
    Unknown(String),
}

/// The text that reports an error.
pub open spec fn error_text(e: LLMError) -> Seq<char> {
    match e {
        LLMError::NetworkError(m) => "Network error: "@ + m@,
        LLMError::SerializationError(m) => "Serialization error: "@ + m@,
        LLMError::LocalModelError(m) => "Local model error: "@ + m@,
        LLMError::ApiKeyError(m) => "API key not found: "@ + m@,
        LLMError::ParsingError(m) => "Parsing error: "@ + m@,
        LLMError::RateLimitExceeded => "Rate limit exceeded"@,
        LLMError::Unknown(m) => "Unknown error: "@ + m@,
    }
}

fn prefixed(prefix: &str, m: &String) -> (r: String)
    ensures
        r@ == prefix@ + m@,
{
    let mut r = String::from_str(prefix);
    r.append(m.as_str());
    r
}

impl LLMError {
    /// The text that reports this error.
    pub fn message(&self) -> (r: String)
        ensures
            r@ == error_text(*self),
    {
        match self {
            LLMError::NetworkError(m) => prefixed("Network error: ", m),
            LLMError::SerializationError(m) => prefixed("Serialization error: ", m),
            LLMError::LocalModelError(m) => prefixed("Local model error: ", m),
            LLMError::ApiKeyError(m) => prefixed("API key not found: ", m),
            LLMError::ParsingError(m) => prefixed("Parsing error: ", m),
            LLMError::RateLimitExceeded => String::from_str("Rate limit exceeded"),
            LLMError::Unknown(m) => prefixed("Unknown error: ", m),
        }
    }
}

/// A model served by a local Ollama daemon.
pub struct OllamaProvider {
    api_url: String,
    model: String,
}

impl OllamaProvider {
    pub closed spec fn spec_model(&self) -> Seq<char> {
        self.model@
    }

    pub closed spec fn spec_api_url(&self) -> Seq<char> {
        self.api_url@
    }

    /// A provider for `model` on the daemon's default address.
    pub fn new(model: &str) -> (r: Self)
        ensures
            r.spec_model() == model@,
            r.spec_api_url() == "http://localhost:11434/api/generate"@,
    {
        OllamaProvider {
            api_url: String::from_str("http://localhost:11434/api/generate"),
            model: String::from_str(model),
        }
    }

    pub fn model(&self) -> (r: &str)
        ensures
            r@ == self.spec_model(),
    {
        self.model.as_str()
    }

    pub fn api_url(&self) -> (r: &str)
        ensures
            r@ == self.spec_api_url(),
    {
        self.api_url.as_str()
    }

    pub fn name(&self) -> (r: &str)
        ensures
            r@ == "Ollama"@,
    {
        "Ollama"
    }

    /// The `wizardcoder` model has to be downloaded first.
    pub fn is_online(&self) -> (r: bool)
        ensures
            r == (self.spec_model() == "wizardcoder"@),
    {
        str_eq(self.model.as_str(), "wizardcoder")
    }
}

/// The number of requests a hosted-service provider may make in one session.
pub const MAX_HOSTED_CALLS: usize = 50;

/// A model of the hosted OpenAI service, with a per-session call budget.
pub struct OpenAIProvider {
    api_key: String,
    model: String,
    call_count: usize,
    max_calls: usize,
}

/// Why a credential is refused, where it is: it is missing, or it does not
/// have the `sk-` form of the service's keys.
pub open spec fn key_problem(api_key: Option<Seq<char>>) -> Option<Seq<char>> {
    match api_key {
        None => Some(
            "OPENAI_API_KEY environment variable not set. Please set your OpenAI API key."@,
        ),
        Some(k) => if starts_with(k, "sk-"@) {
            None
        } else {
            Some("Invalid OpenAI API key format. API keys should start with 'sk-'"@)
        },
    }
}

pub open spec fn opt_str(o: Option<String>) -> Option<Seq<char>> {
    match o {
        Some(s) => Some(s@),
        None => None,
    }
}

impl OpenAIProvider {
    pub closed spec fn spec_model(&self) -> Seq<char> {
        self.model@
    }

    pub closed spec fn spec_api_key(&self) -> Seq<char> {
        self.api_key@
    }

    /// Requests made so far, refused ones included.
    pub closed spec fn calls(&self) -> nat {
        self.call_count as nat
    }

    pub closed spec fn budget(&self) -> nat {
        self.max_calls as nat
    }

    /// A provider for the default model, with the key the caller found.
    pub fn new(api_key: Option<String>) -> (r: Result<Self, LLMError>)
        ensures
            r matches Ok(p) ==> key_problem(opt_str(api_key)) is None && p.spec_model()
                == "gpt-3.5-turbo"@ && p.spec_api_key() == api_key->0@ && p.calls() == 0
                && p.budget() == MAX_HOSTED_CALLS,
            r matches Err(e) ==> key_problem(opt_str(api_key)) matches Some(m) && (e matches LLMError::ApiKeyError(msg) && msg@ == m),
            key_problem(opt_str(api_key)) is None <==> r is Ok,
    {
        Self::new_with_model(api_key, "gpt-3.5-turbo")
    }

    /// A provider for `model`, with the key the caller found. A missing key,
    /// or one without the `sk-` prefix, is refused.
    pub fn new_with_model(api_key: Option<String>, model: &str) -> (r: Result<Self, LLMError>)
        ensures
            r matches Ok(p) ==> key_problem(opt_str(api_key)) is None && p.spec_model()
                == model@ && p.spec_api_key() == api_key->0@ && p.calls() == 0 && p.budget()
                == MAX_HOSTED_CALLS,
            r matches Err(e) ==> key_problem(opt_str(api_key)) matches Some(m) && (e matches LLMError::ApiKeyError(msg) && msg@ == m),
            key_problem(opt_str(api_key)) is None <==> r is Ok,
    {
        match api_key {
            None => Err(
                LLMError::ApiKeyError(
                    String::from_str(
                        "OPENAI_API_KEY environment variable not set. Please set your OpenAI API key.",
                    ),
                ),
            ),
            Some(key) => {
                let kc = chars_of(key.as_str());
                let prefix = chars_of("sk-");
                if !starts_with_exec(&kc, &prefix) {
                    return Err(
                        LLMError::ApiKeyError(
                            String::from_str(
                                "Invalid OpenAI API key format. API keys should start with 'sk-'",
                            ),
                        ),
                    );
                }
                Ok(
                    OpenAIProvider {
                        api_key: key,
                        model: String::from_str(model),
                        call_count: 0,
                        max_calls: MAX_HOSTED_CALLS,
                    },
                )
            },
        }
    }

    pub fn get_model(&self) -> (r: &str)
        ensures
            r@ == self.spec_model(),
    {
        self.model.as_str()
    }

    pub fn set_model(&mut self, model: String)
        ensures
            final(self).spec_model() == model@,
            final(self).spec_api_key() == old(self).spec_api_key(),
            final(self).calls() == old(self).calls(),
            final(self).budget() == old(self).budget(),
    {
        self.model = model;
    }

    pub fn api_key(&self) -> (r: &str)
        ensures
            r@ == self.spec_api_key(),
    {
        self.api_key.as_str()
    }

    pub fn name(&self) -> (r: &str)
        ensures
            r@ == "OpenAI"@,
    {
        "OpenAI"
    }

    /// The hosted service always needs the network.
    pub fn is_online(&self) -> (r: bool)
        ensures
            r,
    {
        true
    }

    /// Counts a request about to be made, and refuses it once the session's
    /// budget is spent. Every attempt counts, refused ones too.
    pub fn begin_call(&mut self) -> (r: Result<(), LLMError>)
        ensures
            final(self).calls() == if old(self).calls() < usize::MAX {
                old(self).calls() + 1
            } else {
                old(self).calls()
            },
            final(self).budget() == old(self).budget(),
            final(self).spec_model() == old(self).spec_model(),
            final(self).spec_api_key() == old(self).spec_api_key(),
            r is Ok <==> old(self).calls() < old(self).budget(),
            r matches Err(e) ==> e == LLMError::RateLimitExceeded,
    {
        let current = self.call_count;
        if self.call_count < usize::MAX {
            self.call_count = self.call_count + 1;
        }
        if current >= self.max_calls {
            return Err(LLMError::RateLimitExceeded);
        }
        Ok(())
    }
}

impl OpenAIProvider {
    /// The error for an unsuccessful HTTP status; `status_text` is the status as
    /// displayed (code and reason), `body` the text of the response.
    pub fn error_for_status(status: u16, status_text: &str, body: &str) -> (r: LLMError)
        ensures
            status == 401 ==> (r matches LLMError::ApiKeyError(m) && m@
                == "Invalid OpenAI API key. Please check your OPENAI_API_KEY environment variable."@),
            status == 429 ==> r == LLMError::RateLimitExceeded,
            status != 401 && status != 429 ==> (r matches LLMError::ParsingError(m) && m@
                == "OpenAI API error ("@ + status_text@ + "): "@ + body@),
    {
        if status == 401 {
            LLMError::ApiKeyError(
                String::from_str(
                    "Invalid OpenAI API key. Please check your OPENAI_API_KEY environment variable.",
                ),
            )
        } else if status == 429 {
            LLMError::RateLimitExceeded
        } else {
            let mut m = String::from_str("OpenAI API error (");
            m.append(status_text);
            m.append("): ");
            m.append(body);
            LLMError::ParsingError(m)
        }
    }

    /// The answer of a successful request: the content of its first choice.
    pub fn first_choice(contents: Vec<String>) -> (r: Result<String, LLMError>)
        ensures
            contents.len() > 0 ==> (r matches Ok(c) && c@ == contents@[0]@),
            contents.len() == 0 ==> (r matches Err(LLMError::ParsingError(m)) && m@
                == "No choices in OpenAI response"@),
    {
        if contents.len() == 0 {
            return Err(LLMError::ParsingError(String::from_str("No choices in OpenAI response")));
        }
        let mut contents = contents;
        Ok(contents.swap_remove(0))
    }
}

/// A local model file; this build carries no local inference engine.
pub struct LlmRsProvider {
    model_path: String,
}

impl LlmRsProvider {
    pub closed spec fn spec_model_path(&self) -> Seq<char> {
        self.model_path@
    }

    pub fn new(model_path: &str) -> (r: Self)
        ensures
            r.spec_model_path() == model_path@,
    {
        LlmRsProvider { model_path: String::from_str(model_path) }
    }

    pub fn model_path(&self) -> (r: &str)
        ensures
            r@ == self.spec_model_path(),
    {
        self.model_path.as_str()
    }

    pub fn name(&self) -> (r: &str)
        ensures
            r@ == "LLM-rs (disabled)"@,
    {
        "LLM-rs (disabled)"
    }

    /// Always fails: local inference is not part of this build.
    pub fn generate(&self, prompt: &str) -> (r: Result<String, LLMError>)
        ensures
            r matches Err(LLMError::LocalModelError(m)) && m@ == disabled_message(),
    {
        Err(
            LLMError::LocalModelError(
                String::from_str(
                    "LLM-rs feature is not enabled. To enable it, build with --features \"core/llm-rs\" and ensure you have libclang installed (for Windows, install LLVM from https://github.com/llvm/llvm-project/releases/)",
                ),
            ),
        )
    }
}

pub open spec fn disabled_message() -> Seq<char> {
    "LLM-rs feature is not enabled. To enable it, build with --features \"core/llm-rs\" and ensure you have libclang installed (for Windows, install LLVM from https://github.com/llvm/llvm-project/releases/)"@
}

/// The local model the daemon-backed provider falls back to.
pub open spec fn default_local_model() -> Seq<char> {
    "models/tinyllama.gguf"@
}

/// One of the back ends.
pub enum LLMProvider {
    Ollama(OllamaProvider),
    LlmRs(LlmRsProvider),
    OpenAI(OpenAIProvider),
}

impl LLMProvider {
    /// The daemon-backed provider with the `codellama` model.
    pub fn default() -> (r: Self)
        ensures
            r matches LLMProvider::Ollama(p) && p.spec_model() == "codellama"@,
    {
        LLMProvider::Ollama(OllamaProvider::new("codellama"))
    }

    /// Whether using this back end needs the network.
    pub fn is_online(&self) -> (r: bool)
        ensures
            r == match self {
                LLMProvider::Ollama(p) => p.spec_model() == "wizardcoder"@,
                LLMProvider::OpenAI(_) => true,
                LLMProvider::LlmRs(_) => false,
            },
    {
        match self {
            LLMProvider::Ollama(p) => p.is_online(),
            LLMProvider::OpenAI(_) => true,
            LLMProvider::LlmRs(_) => false,
        }
    }

    pub fn name(&self) -> (r: &str)
        ensures
            r@ == match self {
                LLMProvider::Ollama(_) => "Ollama"@,
                LLMProvider::OpenAI(_) => "OpenAI"@,
                LLMProvider::LlmRs(_) => "LLM-rs (disabled)"@,
            },
    {
        match self {
            LLMProvider::Ollama(p) => p.name(),
            LLMProvider::OpenAI(p) => p.name(),
            LLMProvider::LlmRs(p) => p.name(),
        }
    }

    /// The one back end tried after this one fails: the local model for the
    /// daemon, none for the others.
    pub fn fallback(&self) -> (r: Option<LLMProvider>)
        ensures
            match self {
                LLMProvider::Ollama(_) => r matches Some(LLMProvider::LlmRs(q)) && q.spec_model_path()
                    == default_local_model(),
                _ => r is None,
            },
    {
        match self {
            LLMProvider::Ollama(_) => Some(LLMProvider::LlmRs(LlmRsProvider::new("models/tinyllama.gguf"))),
            _ => None,
        }
    }
}

/// The back ends of a session, in the order they are tried: a primary and at
/// most one fallback, fixed when the chain is built.
pub struct ProviderChain {
    primary: LLMProvider,
    secondary: Option<LLMProvider>,
}

/// What the caller does after an attempt: call the back end at that position,
/// or stop with this result.
#[derive(Debug, PartialEq)]
pub enum ChainStep {
    Call(usize),
    Done(Result<String, LLMError>),
}

/// The step after attempt `attempt` ended with `outcome`: only the primary's
/// failure leads on, and only to the fallback, where there is one.
pub open spec fn next_step(attempt: usize, has_fallback: bool, outcome: Result<String, LLMError>) -> ChainStep {
    if attempt == 0 && outcome is Err && has_fallback {
        ChainStep::Call(1)
    } else {
        ChainStep::Done(outcome)
    }
}

/// What the chain returns given the primary's outcome and, where it was
/// called, the fallback's.
pub open spec fn chain_result(
    primary: Result<String, LLMError>,
    secondary: Option<Result<String, LLMError>>,
) -> Result<String, LLMError> {
    match (primary, secondary) {
        (Ok(r), _) => Ok(r),
        (Err(_), Some(s)) => s,
        (Err(e), None) => Err(e),
    }
}

impl ProviderChain {
    /// Whether a fallback follows the primary.
    pub closed spec fn has_fallback(&self) -> bool {
        self.secondary is Some
    }

    pub closed spec fn spec_secondary(&self) -> Option<LLMProvider> {
        self.secondary
    }

    pub closed spec fn spec_primary(&self) -> LLMProvider {
        self.primary
    }

    /// `primary` followed by its fallback, where it has one.
    pub fn new(primary: LLMProvider) -> (r: Self)
        ensures
            r.has_fallback() == (primary is Ollama),
            r.spec_primary() == primary,
            primary is Ollama ==> (r.spec_secondary() matches Some(LLMProvider::LlmRs(q))
                && q.spec_model_path() == default_local_model()),
            r.has_fallback() == (r.spec_secondary() is Some),
    {
        let secondary = primary.fallback();
        ProviderChain { primary, secondary }
    }

    /// The number of back ends in the chain.
    pub fn len(&self) -> (r: usize)
        ensures
            r == if self.has_fallback() { 2usize } else { 1usize },
    {
        if self.secondary.is_some() {
            2
        } else {
            1
        }
    }

    /// The back end at position `i`: 0 is the primary, 1 the fallback.
    pub fn provider(&self, i: usize) -> (r: Option<&LLMProvider>)
        ensures
            i == 0 ==> r == Some(&self.spec_primary()),
            i == 1 ==> match self.spec_secondary() {
                Some(p) => r == Some(&p),
                None => r is None,
            },
            i > 1 ==> r is None,
    {
        if i == 0 {
            Some(&self.primary)
        } else if i == 1 {
            match &self.secondary {
                Some(p) => Some(p),
                None => None,
            }
        } else {
            None
        }
    }

    /// Counts a request about to be sent to the back end at position
    /// `attempt`. Only the hosted service keeps a count, and it refuses the
    /// request once its budget is spent.
    pub fn begin_attempt(&mut self, attempt: usize) -> (r: Result<(), LLMError>)
        ensures
            final(self).has_fallback() == old(self).has_fallback(),
            !(old(self).spec_primary() is OpenAI) ==> *final(self) == *old(self) && r is Ok,
            attempt != 0 ==> *final(self) == *old(self) && r is Ok,
            attempt == 0 ==> (old(self).spec_primary() matches LLMProvider::OpenAI(p) ==> (
            final(self).spec_primary() matches LLMProvider::OpenAI(q) && q.budget() == p.budget()
                && q.spec_model() == p.spec_model() && q.spec_api_key() == p.spec_api_key() && (
            r is Ok <==> p.calls() < p.budget()) && (r matches Err(e) ==> e
                == LLMError::RateLimitExceeded))),
    {
        if attempt != 0 {
            return Ok(());
        }
        match &mut self.primary {
            LLMProvider::OpenAI(p) => p.begin_call(),
            _ => Ok(()),
        }
    }

    /// What follows attempt `attempt`, which ended with `outcome`.
    pub fn after_attempt(&self, attempt: usize, outcome: Result<String, LLMError>) -> (r: ChainStep)
        ensures
            r == next_step(attempt, self.has_fallback(), outcome),
    {
        if attempt == 0 && outcome.is_err() && self.secondary.is_some() {
            ChainStep::Call(1)
        } else {
            ChainStep::Done(outcome)
        }
    }
}

/// Fallback correctness: when the primary fails the fallback is called next,
/// and what the fallback returns, answer or error, is what the chain returns,
/// with nothing taken from the primary; no back end is called after it.
pub proof fn lemma_fallback_correct(a: Result<String, LLMError>, b: Result<String, LLMError>)
    requires
        a is Err,
    ensures
        next_step(0, true, a) == ChainStep::Call(1),
        next_step(1, true, b) == ChainStep::Done(b),
        chain_result(a, Some(b)) == b,
{
}

/// A finished chain gives its result to the parser: an answer becomes a
/// command and explanation, or a parsing error that carries the raw text.
pub fn command_from_response(response: Result<String, LLMError>) -> (r: Result<
    (String, String),
    LLMError,
>)
    ensures
        response matches Err(e) ==> r == Err::<(String, String), LLMError>(e),
        response matches Ok(t) ==> match r {
            Ok((c, x)) => parse_model(t@) == Some((c@, x@)),
            Err(e) => parse_model(t@) is None && (e matches LLMError::ParsingError(m) && m@
                == parse_failure(t@)),
        },
{
    match response {
        Err(e) => Err(e),
        Ok(text) => match parse_response(text.as_str()) {
            Ok(pair) => Ok(pair),
            Err(m) => Err(LLMError::ParsingError(m)),
        },
    }
}

} // verus!
