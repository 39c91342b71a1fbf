use pathogen::types::Language;
use pathogen::workspace::{
    get_source_relative_path, is_target_file, join_workspace_path, should_skip_file,
    validate_destination_path, WorkspaceError,
};

#[test]
fn test_should_skip_file() {
    assert!(should_skip_file(".git"));
    assert!(should_skip_file("target"));
    assert!(should_skip_file("tmp-build"));
    assert!(should_skip_file("node_modules/.cache"));
    assert!(!should_skip_file("src"));
    assert!(!should_skip_file("package.json"));
    assert!(!should_skip_file("targets"));
}

#[test]
fn test_destination_safety_check() {
    // Destinations inside the workspace pass; anything else fails, so a
    // mutation can never land in the developer's tree.
    assert!(validate_destination_path("/tmp/ws/src/a.ts", "/tmp/ws").is_ok());
    assert!(validate_destination_path("/tmp/ws", "/tmp/ws").is_ok());
    assert_eq!(
        validate_destination_path("/tmp/wsx/src/a.ts", "/tmp/ws"),
        Err(WorkspaceError::OutsideWorkspace)
    );
    assert_eq!(
        validate_destination_path("/home/dev/project/src/a.ts", "/tmp/ws"),
        Err(WorkspaceError::OutsideWorkspace)
    );
}

#[test]
fn test_source_relative_path() {
    let rel = get_source_relative_path("/home/p/src/cli", "/home/p").unwrap();
    assert_eq!(rel, "src/cli");
    let same = get_source_relative_path("/home/p", "/home/p").unwrap();
    assert_eq!(same, "");
    assert!(get_source_relative_path("/other/src", "/home/p").is_err());
}

#[test]
fn test_join_keeps_workspace_prefix() {
    let joined = join_workspace_path("/tmp/ws", "src/cli/a.ts");
    assert_eq!(joined, "/tmp/ws/src/cli/a.ts");
    assert!(validate_destination_path(&joined, "/tmp/ws").is_ok());
}

#[test]
fn test_target_file_discovery() {
    assert!(is_target_file("src/cli/run.ts", &Language::TypeScript));
    assert!(!is_target_file("src/cli/run.spec.ts", &Language::TypeScript));
    assert!(!is_target_file("src/testing/utils/mock.ts", &Language::TypeScript));
    assert!(!is_target_file("src/cli/run.rs", &Language::TypeScript));

    assert!(is_target_file("src/parser.rs", &Language::Rust));
    assert!(!is_target_file("tests/parser.rs", &Language::Rust));
    assert!(!is_target_file("target/debug/build.rs", &Language::Rust));
}
