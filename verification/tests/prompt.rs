use libsug::prompt::build_prompt;

#[test]
fn prompt_for_python_dashboards() {
    assert_eq!(
        build_prompt("Python", "dashboard data visualization"),
        "Suggest three libraries for Python to dashboard data visualization with short descriptions. Provide them in a numbered list. Be concise and clear."
    );
}

#[test]
fn prompt_keeps_special_characters_as_they_are() {
    assert_eq!(
        build_prompt("C++ & \"Qt\" {}", "draw <svg> \\ 100%\n"),
        "Suggest three libraries for C++ & \"Qt\" {} to draw <svg> \\ 100%\n with short descriptions. Provide them in a numbered list. Be concise and clear."
    );
}

#[test]
fn prompt_accepts_empty_texts() {
    assert_eq!(
        build_prompt("", ""),
        "Suggest three libraries for  to  with short descriptions. Provide them in a numbered list. Be concise and clear."
    );
}

#[test]
fn prompt_keeps_text_beyond_ascii() {
    assert_eq!(
        build_prompt("Ünïcödé", "日本語 ✓"),
        "Suggest three libraries for Ünïcödé to 日本語 ✓ with short descriptions. Provide them in a numbered list. Be concise and clear."
    );
}
