use agent_core::capability::Capability;
use agent_core::enforce::{execute_request, AgentHandle, CanCommit, CommitterClass, GeneratorClass};
use agent_core::error::{AgentError, Request};

#[test]
fn execute_request_denies_out_of_grant_shell_exec() {
    let agent = AgentHandle::<GeneratorClass>::new(vec![Capability::FileRead(
        "docs/**".to_string(),
    )]);
    let request = Request::ShellExec("git push origin main".to_string());

    let result = execute_request(&agent, &request);

    match result {
        Err(AgentError::CapabilityDenied(denied)) => assert_eq!(denied, request),
        other => panic!("expected CapabilityDenied, got {other:?}"),
    }
}

#[test]
fn execute_request_allows_in_grant_file_read() {
    let agent = AgentHandle::<GeneratorClass>::new(vec![Capability::FileRead(
        "docs/**".to_string(),
    )]);
    let request = Request::FileRead("docs/design.md".to_string());

    let result = execute_request(&agent, &request);

    assert!(result.is_ok(), "expected Ok, got {result:?}");
}

#[test]
fn execute_request_reports_what_it_executed() {
    let agent = AgentHandle::<GeneratorClass>::new(vec![Capability::FileRead(
        "docs/**".to_string(),
    )]);
    let request = Request::FileRead("docs/design.md".to_string());
    assert_eq!(
        execute_request(&agent, &request),
        Ok("executed: FileRead(\"docs/design.md\")".to_string())
    );
}

#[test]
fn execute_request_with_empty_grant_denies() {
    let agent = AgentHandle::<GeneratorClass>::new(vec![]);
    let request = Request::FileRead("docs/design.md".to_string());
    assert_eq!(
        execute_request(&agent, &request),
        Err(AgentError::CapabilityDenied(request.clone()))
    );
}

#[test]
fn execute_request_finds_a_later_grant() {
    let agent = AgentHandle::<GeneratorClass>::new(vec![
        Capability::FileRead("docs/**".to_string()),
        Capability::ShellExec("git status".to_string()),
        Capability::ShellExec("git push *".to_string()),
    ]);
    assert!(execute_request(&agent, &Request::ShellExec("git push origin main".to_string())).is_ok());
    assert!(execute_request(&agent, &Request::ShellExec("git status".to_string())).is_ok());
    assert!(execute_request(&agent, &Request::ShellExec("git status -s".to_string())).is_err());
}

#[test]
fn committer_with_commit_grant_can_commit() {
    let agent = AgentHandle::<CommitterClass>::new(vec![Capability::ShellExec(
        "git commit *".to_string(),
    )]);
    assert!(agent.git_commit("chassis bootstrap").is_ok());
    assert!(agent.git_commit("").is_ok());
}

#[test]
fn committer_quotes_the_message() {
    let agent = AgentHandle::<CommitterClass>::new(vec![Capability::ShellExec(
        "git commit -m \"fix \\\"quotes\\\"\"".to_string(),
    )]);
    assert!(agent.git_commit("fix \"quotes\"").is_ok());
    assert!(agent.git_commit("fix quotes").is_err());
}

#[test]
fn committer_without_commit_grant_is_denied() {
    let agent = AgentHandle::<CommitterClass>::new(vec![Capability::ShellExec(
        "git push *".to_string(),
    )]);
    assert_eq!(
        agent.git_commit("msg"),
        Err(AgentError::CapabilityDenied(Request::ShellExec(
            "git commit -m \"msg\"".to_string()
        )))
    );
}

#[test]
fn joined_grant_permits_what_either_permits() {
    let read = Capability::FileRead("docs/*".to_string());
    let shell = Capability::ShellExec("ls".to_string());
    let first = AgentHandle::<GeneratorClass>::new(vec![read.clone()]);
    let second = AgentHandle::<GeneratorClass>::new(vec![shell.clone()]);
    let joined = AgentHandle::<GeneratorClass>::new(vec![read, shell]);
    for request in [
        Request::FileRead("docs/a".to_string()),
        Request::ShellExec("ls".to_string()),
        Request::FileWrite("docs/a".to_string()),
    ] {
        let either = execute_request(&first, &request).is_ok()
            || execute_request(&second, &request).is_ok();
        assert_eq!(execute_request(&joined, &request).is_ok(), either);
    }
}

#[test]
fn commit_quoted_uses_the_given_quoting() {
    let agent = AgentHandle::<CommitterClass>::new(vec![Capability::ShellExec(
        "git commit -m 'x'".to_string(),
    )]);
    assert!(agent.commit_quoted("'x'").is_ok());
    assert_eq!(
        agent.commit_quoted("\"x\""),
        Err(AgentError::CapabilityDenied(Request::ShellExec(
            "git commit -m \"x\"".to_string()
        )))
    );
    assert!(agent.git_commit("x").is_err());
}

#[test]
fn reordered_grant_permits_the_same() {
    let a = Capability::FileRead("docs/*".to_string());
    let b = Capability::ShellExec("git *".to_string());
    let one = AgentHandle::<GeneratorClass>::new(vec![a.clone(), b.clone()]);
    let other = AgentHandle::<CommitterClass>::new(vec![b, a]);
    for request in [
        Request::FileRead("docs/a".to_string()),
        Request::ShellExec("git log".to_string()),
        Request::FileWrite("docs/a".to_string()),
    ] {
        assert_eq!(
            execute_request(&one, &request).is_ok(),
            execute_request(&other, &request).is_ok()
        );
    }
}
