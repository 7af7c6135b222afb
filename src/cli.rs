//! Command-line options and the back end they select.

use vstd::prelude::*;
use vstd::string::*;
use crate::text::{lower_of, lowercase, str_eq};
use crate::llm::{LLMError, LLMProvider, LlmRsProvider, OllamaProvider, OpenAIProvider, key_problem, opt_str};

verus! {

/// The options of one invocation.
#[derive(Debug, Clone)]
pub struct CliArgs {
    /// Natural language input for the shell command
    pub input: Option<String>,
    /// Show the command instead of running it
    pub dry_run: bool,
    /// Show command history
    pub history: bool,
    /// List available plugins
    pub list_plugins: bool,
    /// Path to config file
    pub config: Option<String>,
    /// LLM backend to use (ollama, llm-rs, openai)
    pub backend: String,
    /// Allow online back ends; selects the wizardcoder model for Ollama
    pub online: bool,
    /// Never use online back ends
    pub offline: bool,
    /// Enable debug output
    pub debug: bool,
    /// Run safe commands without asking
    pub force: bool,
    /// Plugin to use for command generation
    pub plugin: Option<String>,
    /// Path to the local model file
    pub model_path: Option<String>,
    /// OpenAI model to use
    pub openai_model: Option<String>,
    /// Path to history file
    pub history_file: Option<String>,
    /// Disable feedback prompts
    pub no_feedback: bool,
}

/// The local model file: the one given, else the default.
pub open spec fn local_model(model_path: Option<String>) -> Seq<char> {
    match model_path {
        Some(p) => p@,
        None => "models/tinyllama.gguf"@,
    }
}

/// The hosted model: the one given, else the default.
pub open spec fn hosted_model(openai_model: Option<String>) -> Seq<char> {
    match openai_model {
        Some(m) => m@,
        None => "gpt-3.5-turbo"@,
    }
}

/// The back end `args` select, given the key found for the hosted service.
/// Offline, the hosted service gives way to the local model and online
/// Ollama to its local model; an unknown name selects the default.
pub open spec fn selects(args: CliArgs, api_key: Option<String>, r: Result<LLMProvider, LLMError>) -> bool {
    let b = lower_of(args.backend@);
    if args.offline && b == "openai"@ {
        r matches Ok(LLMProvider::LlmRs(p)) && p.spec_model_path() == local_model(args.model_path)
    } else if args.offline && b == "ollama"@ && args.online {
        r matches Ok(LLMProvider::Ollama(p)) && p.spec_model() == "codellama"@
    } else if b == "ollama"@ {
        r matches Ok(LLMProvider::Ollama(p)) && p.spec_model() == if args.online {
            "wizardcoder"@
        } else {
            "codellama"@
        }
    } else if b == "llm-rs"@ {
        r matches Ok(LLMProvider::LlmRs(p)) && p.spec_model_path() == local_model(args.model_path)
    } else if b == "openai"@ {
        match key_problem(opt_str(api_key)) {
            None => r matches Ok(LLMProvider::OpenAI(p)) && p.spec_model() == hosted_model(
                args.openai_model,
            ) && p.calls() == 0,
            Some(m) => r matches Err(LLMError::ApiKeyError(e)) && e@ == m,
        }
    } else {
        r matches Ok(LLMProvider::Ollama(p)) && p.spec_model() == "codellama"@
    }
}

fn local_provider(model_path: &Option<String>) -> (r: LLMProvider)
    ensures
        r matches LLMProvider::LlmRs(p) && p.spec_model_path() == local_model(*model_path),
{
    match model_path {
        Some(p) => LLMProvider::LlmRs(LlmRsProvider::new(p.as_str())),
        None => LLMProvider::LlmRs(LlmRsProvider::new("models/tinyllama.gguf")),
    }
}

/// The back end that `args` select; `api_key` is the hosted service's key
/// where one was found.
pub fn create_llm_provider(args: &CliArgs, api_key: Option<String>) -> (r: Result<
    LLMProvider,
    LLMError,
>)
    ensures
        selects(*args, api_key, r),
{
    let lower = lowercase(args.backend.as_str());
    let b = lower.as_str();
    let is_openai = str_eq(b, "openai");
    let is_ollama = str_eq(b, "ollama");
    if args.offline && is_openai {
        return Ok(local_provider(&args.model_path));
    }
    if args.offline && is_ollama && args.online {
        return Ok(LLMProvider::Ollama(OllamaProvider::new("codellama")));
    }
    if is_ollama {
        let model = if args.online {
            "wizardcoder"
        } else {
            "codellama"
        };
        return Ok(LLMProvider::Ollama(OllamaProvider::new(model)));
    }
    if str_eq(b, "llm-rs") {
        return Ok(local_provider(&args.model_path));
    }
    if is_openai {
        let created = match &args.openai_model {
            Some(m) => OpenAIProvider::new_with_model(api_key, m.as_str()),
            None => OpenAIProvider::new_with_model(api_key, "gpt-3.5-turbo"),
        };
        return match created {
            Ok(p) => Ok(LLMProvider::OpenAI(p)),
            Err(e) => Err(e),
        };
    }
    Ok(LLMProvider::default())
}

} // verus!
