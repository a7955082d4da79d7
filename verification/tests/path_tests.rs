use agent_core::tools::resolve_path;

#[test]
fn test_resolve_path_relative() {
    let result = resolve_path("/home/user", "file.txt");
    assert_eq!(result, "/home/user/file.txt");
}

#[test]
fn test_resolve_path_absolute() {
    let result = resolve_path("/home/user", "/etc/config");
    assert_eq!(result, "/etc/config");
}

#[test]
fn test_resolve_path_examples() {
    assert_eq!(resolve_path("/home/u", "a.txt"), "/home/u/a.txt");
    assert_eq!(resolve_path("/home/u", "/etc/x"), "/etc/x");
}

#[test]
fn test_resolve_path_trailing_separator() {
    assert_eq!(resolve_path("/home/user/", "file.txt"), "/home/user/file.txt");
}

#[test]
fn test_resolve_path_idempotent() {
    let once = resolve_path("/home/user", "notes/todo.txt");
    let twice = resolve_path("/home/user", once.as_str());
    assert_eq!(once, twice);
    assert_eq!(once, "/home/user/notes/todo.txt");
}
