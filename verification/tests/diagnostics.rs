use ios_bridge::diagnostics::{GIT_VERSION, HELLO_LINE};
use ios_bridge::{free_c_string, get_git_version, hw_hello_world};

#[test]
fn get_git_version_names_the_library() {
    let handle = get_git_version();
    assert_eq!(handle.as_bytes_with_nul(), b"git version 2.34.0 (libgit2)\0");
    assert_eq!(GIT_VERSION, "git version 2.34.0 (libgit2)");
}

#[test]
fn get_git_version_is_never_empty() {
    assert!(!get_git_version().as_bytes().is_empty());
    assert_eq!(get_git_version().as_bytes().len(), 28);
}

#[test]
fn get_git_version_gives_a_new_handle_with_the_same_text_each_time() {
    let mut round = 0;
    while round < 100 {
        let first = get_git_version();
        let second = get_git_version();
        assert_eq!(first, second);
        free_c_string(Some(first));
        free_c_string(Some(second));
        round += 1;
    }
}

#[test]
fn hw_hello_world_gives_the_probe_line() {
    assert_eq!(hw_hello_world(), "Hello from Rust!");
    assert_eq!(HELLO_LINE, "Hello from Rust!");
}
