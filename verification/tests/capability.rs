use agent_core::capability::Capability;
use agent_core::error::Request;
use agent_core::glob::glob_match;

#[test]
fn allows_matches_same_variant_and_glob() {
    let cap = Capability::FileRead("docs/**".to_string());
    assert!(cap.allows(&Request::FileRead("docs/design.md".to_string())));
    assert!(!cap.allows(&Request::FileRead("src/main.rs".to_string())));
}

#[test]
fn allows_rejects_mismatched_variant_even_with_matching_string() {
    // Same literal string, different Request variant than the grant.
    let cap = Capability::FileRead("git commit -m x".to_string());
    assert!(!cap.allows(&Request::ShellExec("git commit -m x".to_string())));
}

#[test]
fn allows_checks_each_variant_against_its_own() {
    let shell = Capability::ShellExec("cargo build --target wasm32v1-none *".to_string());
    assert!(shell.allows(&Request::ShellExec(
        "cargo build --target wasm32v1-none --release".to_string()
    )));
    assert!(!shell.allows(&Request::ShellExec("cargo test".to_string())));
    let write = Capability::FileWrite("out/*".to_string());
    assert!(write.allows(&Request::FileWrite("out/a.txt".to_string())));
    assert!(!write.allows(&Request::FileRead("out/a.txt".to_string())));
    assert!(!Capability::FileRead("out/*".to_string())
        .allows(&Request::FileWrite("out/a.txt".to_string())));
}

#[test]
fn glob_star_matches_empty_and_any_run() {
    assert!(glob_match("*", ""));
    assert!(glob_match("*", "anything at all"));
    assert!(glob_match("a*", "a"));
    assert!(glob_match("a*c", "abbbc"));
    assert!(glob_match("a*c", "ac"));
    assert!(!glob_match("a*c", "abcd"));
    assert!(glob_match("**", ""));
    assert!(glob_match("*b*", "abc"));
    assert!(!glob_match("*b*", "acd"));
}

#[test]
fn glob_literal_matches_only_itself() {
    assert!(glob_match("", ""));
    assert!(!glob_match("", "x"));
    assert!(!glob_match("x", ""));
    assert!(glob_match("docs/design.md", "docs/design.md"));
    assert!(!glob_match("docs/design.md", "docs/design.mdx"));
    assert!(!glob_match("docs/design.md", "docs/design.m"));
    assert!(!glob_match("abc", "abd"));
}

#[test]
fn glob_matches_bytes_of_non_ascii_text() {
    assert!(glob_match("caf*", "café"));
    assert!(glob_match("*é", "café"));
    assert!(!glob_match("café", "cafe"));
}

#[test]
fn lone_star_grant_allows_its_whole_kind_only() {
    let cap = Capability::ShellExec("*".to_string());
    assert!(cap.allows(&Request::ShellExec("".to_string())));
    assert!(cap.allows(&Request::ShellExec("rm -rf /".to_string())));
    assert!(!cap.allows(&Request::FileRead("x".to_string())));
}

#[test]
fn glob_pattern_matches_its_own_text() {
    for p in ["", "*", "a*b", "docs/**", "git commit *"] {
        assert!(glob_match(p, p));
    }
}

#[test]
fn glob_star_in_place_of_a_byte_keeps_the_match() {
    assert!(glob_match("abc", "abc"));
    assert!(glob_match("a*c", "abc"));
    assert!(glob_match("*bc", "abc"));
    assert!(glob_match("ab*", "abc"));
}
