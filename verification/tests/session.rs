use libsug::client::FetchError;
use libsug::session::{finish, report, start, ConfigError, Output};

#[test]
fn run_without_credential_does_not_start() {
    assert_eq!(start("Python", "dashboard data visualization", None), Err(ConfigError::MissingToken));
    assert_eq!(start("", "", None), Err(ConfigError::MissingToken));
}

#[test]
fn missing_credential_names_the_variable() {
    assert_eq!(ConfigError::MissingToken.message(), "API_TOKEN not set in .env file");
}

#[test]
fn run_with_credential_builds_the_request() {
    let request = start("Python", "dashboard data visualization", Some("hf_secret")).unwrap();
    assert_eq!(
        request.url,
        "https://api-inference.huggingface.co/models/deepseek-ai/DeepSeek-R1-Distill-Qwen-32B"
    );
    assert_eq!(request.method, "POST");
    assert_eq!(request.authorization, "Bearer hf_secret");
    assert_eq!(request.content_type, "application/json");
    assert_eq!(
        request.body,
        "{\"inputs\":\"Suggest three libraries for Python to dashboard data visualization with short descriptions. Provide them in a numbered list. Be concise and clear.\"}"
    );
}

#[test]
fn empty_credential_is_a_credential() {
    let request = start("Rust", "parse JSON", Some("")).unwrap();
    assert_eq!(request.authorization, "Bearer ");
}

#[test]
fn answer_is_printed_without_its_preamble() {
    let body = br#"[{"generated_text": "<think>reasoning...</think>1. Matplotlib...\n2. Plotly...\n3. Seaborn..."}]"#;
    assert_eq!(
        finish(Ok(body.to_vec())),
        Output::Answer("1. Matplotlib...\n2. Plotly...\n3. Seaborn...".to_string())
    );
}

#[test]
fn fallback_is_printed_as_an_answer() {
    assert_eq!(finish(Ok(b"{}".to_vec())), Output::Answer("No suggestions found".to_string()));
    assert_eq!(finish(Ok(b"[{}]".to_vec())), Output::Answer("No suggestions found".to_string()));
}

#[test]
fn transport_failure_is_reported() {
    assert_eq!(
        finish(Err("error sending request for url (https://example.invalid/)".to_string())),
        Output::Failure("Error: error sending request for url (https://example.invalid/)".to_string())
    );
    assert_eq!(finish(Err(String::new())), Output::Failure("Error: ".to_string()));
}

#[test]
fn body_that_is_no_json_is_reported() {
    assert_eq!(
        finish(Ok(b"<html></html>".to_vec())),
        Output::Failure("Error: error decoding response body".to_string())
    );
}

#[test]
fn report_cleans_the_suggestions() {
    assert_eq!(
        report(Ok("thinking\n</THINK>\n\n1. a\n2. b".to_string())),
        Output::Answer("1. a\n2. b".to_string())
    );
    assert_eq!(report(Ok("no preamble".to_string())), Output::Answer("no preamble".to_string()));
}

#[test]
fn report_describes_the_failure() {
    assert_eq!(
        report(Err(FetchError::Transport("timed out".to_string()))),
        Output::Failure("Error: timed out".to_string())
    );
    assert_eq!(
        report(Err(FetchError::Decode)),
        Output::Failure("Error: error decoding response body".to_string())
    );
}
