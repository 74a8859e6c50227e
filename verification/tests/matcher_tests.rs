use toolgate::matcher::matches_tool;

#[test]
fn test_exact_match() {
    assert!(matches_tool("shell", "shell"));
    assert!(matches_tool("shell", "Shell")); // case-insensitive
    assert!(!matches_tool("shell", "shell_command"));
}

#[test]
fn test_wildcard_all() {
    assert!(matches_tool("*", "anything"));
    assert!(matches_tool("*", "shell"));
    assert!(matches_tool("*", "mcp__playwright__click"));
}

#[test]
fn test_glob_patterns() {
    assert!(matches_tool("shell*", "shell_command"));
    assert!(matches_tool("shell*", "shell"));
    assert!(matches_tool("mcp__*", "mcp__playwright__browser_click"));
    assert!(!matches_tool("shell*", "local_shell"));
}

#[test]
fn test_question_mark_wildcard() {
    assert!(matches_tool("shel?", "shell"));
    assert!(!matches_tool("shel?", "shells"));
}

#[test]
fn test_case_insensitive_glob() {
    assert!(matches_tool("Shell*", "shell_command"));
    assert!(matches_tool("SHELL*", "shell_command"));
}

#[test]
fn test_glob_upper_name() {
    assert!(matches_tool("shell*", "SHELL"));
}

#[test]
fn test_empty_pattern_and_name() {
    assert!(matches_tool("", ""));
    assert!(!matches_tool("", "shell"));
    assert!(matches_tool("*", ""));
    assert!(!matches_tool("?", ""));
}
