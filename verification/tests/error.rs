use agent_core::error::{AgentError, Request};

#[test]
fn capability_denied_preserves_the_request_for_diagnostics() {
    let req = Request::ShellExec("rm -rf /".to_string());
    let err = AgentError::CapabilityDenied(req.clone());
    let AgentError::CapabilityDenied(preserved) = err;
    assert_eq!(preserved, req);
}

#[test]
fn capability_denied_message_shows_the_request() {
    let err = AgentError::CapabilityDenied(Request::FileWrite("a\"b".to_string()));
    assert_eq!(err.message(), "capability denied: FileWrite(\"a\\\"b\")");
}

#[test]
fn request_clone_is_equal() {
    let req = Request::FileRead("docs/x".to_string());
    assert_eq!(req.clone(), req);
    assert_ne!(Request::FileRead("docs/x".to_string()), Request::FileWrite("docs/x".to_string()));
}

#[test]
fn request_debug_text_names_the_variant_and_quotes_the_text() {
    assert_eq!(
        Request::FileRead("docs/design.md".to_string()).debug_text(),
        "FileRead(\"docs/design.md\")"
    );
    assert_eq!(Request::ShellExec("a\nb".to_string()).debug_text(), "ShellExec(\"a\\nb\")");
    assert_eq!(Request::FileWrite(String::new()).debug_text(), "FileWrite(\"\")");
    let req = Request::ShellExec("say \"hi\"".to_string());
    assert_eq!(req.debug_text(), format!("{req:?}"));
}
