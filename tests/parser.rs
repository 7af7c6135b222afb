use shell_assistant::parser::{parse_response, LLMResponse};

#[test]
fn labelled_lines_scenario() {
    let parsed = parse_response("Command: ls\nExplanation: lists files");
    assert_eq!(parsed, Ok(("ls".to_string(), "lists files".to_string())));
}

#[test]
fn serialized_response_round_trips() {
    let response = LLMResponse::new("ls -la".to_string(), "lists files".to_string());
    let json = response.to_json().unwrap();
    assert_eq!(json, "{\"command\":\"ls -la\",\"explanation\":\"lists files\"}");
    assert_eq!(parse_response(&json), Ok(("ls -la".to_string(), "lists files".to_string())));
}

#[test]
fn serialized_response_escapes_quotes() {
    let response = LLMResponse::new("echo \"hi\"".to_string(), "prints hi".to_string());
    let json = response.to_json().unwrap();
    assert_eq!(json, "{\"command\":\"echo \\\"hi\\\"\",\"explanation\":\"prints hi\"}");
    assert_eq!(parse_response(&json), Ok(("echo \"hi\"".to_string(), "prints hi".to_string())));
}

#[test]
fn json_object_inside_text() {
    let raw = "Sure:\n{\"command\": \"pwd\", \"explanation\": \"prints the directory\"}\nDone";
    assert_eq!(
        parse_response(raw),
        Ok(("pwd".to_string(), "prints the directory".to_string()))
    );
}

#[test]
fn fenced_command_with_label() {
    let raw = "``` ls -la\nExplanation: lists all";
    assert_eq!(parse_response(raw), Ok(("ls -la".to_string(), "lists all".to_string())));
}

#[test]
fn single_line_gets_placeholder_explanation() {
    assert_eq!(
        parse_response("ls -la"),
        Ok(("ls -la".to_string(), "No explanation provided".to_string()))
    );
}

#[test]
fn first_non_blank_line_is_the_command() {
    let raw = "\n  ls -la  \nlists all files\nwith details\n";
    assert_eq!(
        parse_response(raw),
        Ok(("ls -la".to_string(), "lists all files\nwith details".to_string()))
    );
}

#[test]
fn empty_output_is_an_error_with_raw_text() {
    assert_eq!(
        parse_response(""),
        Err("Failed to parse LLM response. Raw response: ".to_string())
    );
    assert_eq!(
        parse_response("  \n  "),
        Err("Failed to parse LLM response. Raw response:   \n  ".to_string())
    );
}

#[test]
fn empty_json_command_is_an_error() {
    let raw = "{\"command\": \"\", \"explanation\": \"nothing\"}";
    assert_eq!(
        parse_response(raw),
        Err(format!("Failed to parse LLM response. Raw response: {}", raw))
    );
}
