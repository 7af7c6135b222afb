use shell_assistant::cli::{create_llm_provider, CliArgs};
use shell_assistant::llm::{LLMError, LLMProvider};

fn args(backend: &str, online: bool, offline: bool) -> CliArgs {
    CliArgs {
        input: None,
        dry_run: false,
        history: false,
        list_plugins: false,
        config: None,
        backend: backend.to_string(),
        online,
        offline,
        debug: false,
        force: false,
        plugin: None,
        model_path: None,
        openai_model: None,
        history_file: None,
        no_feedback: false,
    }
}

#[test]
fn backend_selection() {
    match create_llm_provider(&args("ollama", true, false), None) {
        Ok(LLMProvider::Ollama(p)) => assert_eq!(p.model(), "wizardcoder"),
        _ => panic!("expected the daemon back end"),
    }
    match create_llm_provider(&args("OpenAI", false, true), None) {
        Ok(LLMProvider::LlmRs(p)) => assert_eq!(p.model_path(), "models/tinyllama.gguf"),
        _ => panic!("expected the local back end"),
    }
    match create_llm_provider(&args("ollama", true, true), None) {
        Ok(LLMProvider::Ollama(p)) => assert_eq!(p.model(), "codellama"),
        _ => panic!("expected the local daemon model"),
    }
    assert!(matches!(
        create_llm_provider(&args("openai", false, false), None),
        Err(LLMError::ApiKeyError(_))
    ));
    match create_llm_provider(&args("openai", false, false), Some("sk-abc".to_string())) {
        Ok(LLMProvider::OpenAI(p)) => assert_eq!(p.get_model(), "gpt-3.5-turbo"),
        _ => panic!("expected the hosted back end"),
    }
    match create_llm_provider(&args("mystery", false, false), None) {
        Ok(LLMProvider::Ollama(p)) => assert_eq!(p.model(), "codellama"),
        _ => panic!("expected the default back end"),
    }
}
