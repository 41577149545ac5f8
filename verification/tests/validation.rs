use mcp_server_agent_browser::validate::{validate_file_path, validate_session_id};

fn err_of(r: Result<(), String>) -> String {
    match r {
        Ok(()) => panic!("expected a refusal"),
        Err(e) => e,
    }
}

#[test]
fn session_id_empty_is_refused() {
    assert_eq!(err_of(validate_session_id("")), "Session ID cannot be empty");
}

#[test]
fn session_id_plain_is_accepted() {
    assert_eq!(validate_session_id("abc-DEF_1.2"), Ok(()));
    assert_eq!(validate_session_id("a"), Ok(()));
}

#[test]
fn session_id_length_limit_is_in_bytes() {
    let at_limit = "a".repeat(128);
    assert_eq!(validate_session_id(&at_limit), Ok(()));
    let over = "a".repeat(129);
    assert_eq!(err_of(validate_session_id(&over)), "Session ID too long (max 128 chars)");
    // 65 two-byte characters are 130 bytes.
    let wide = "é".repeat(65);
    assert_eq!(err_of(validate_session_id(&wide)), "Session ID too long (max 128 chars)");
    let wide_ok = "é".repeat(64);
    assert_eq!(validate_session_id(&wide_ok), Ok(()));
}

#[test]
fn session_id_bad_characters_are_refused() {
    assert_eq!(
        err_of(validate_session_id("bad id")),
        "Invalid session ID 'bad id': only alphanumeric, hyphens, underscores, and dots allowed"
    );
    assert!(validate_session_id("x;rm").is_err());
    assert!(validate_session_id("a/b").is_err());
    assert!(validate_session_id("'q'").is_err());
    assert!(validate_session_id("tab\there").is_err());
}

#[test]
fn session_id_unicode_alphanumerics_are_accepted() {
    assert_eq!(validate_session_id("日本語"), Ok(()));
    assert_eq!(validate_session_id("Ωmega9"), Ok(()));
}

#[test]
fn session_id_length_checked_before_characters() {
    let long_bad = " ".repeat(200);
    assert_eq!(err_of(validate_session_id(&long_bad)), "Session ID too long (max 128 chars)");
}

#[test]
fn file_path_empty_is_refused() {
    assert_eq!(err_of(validate_file_path("")), "File path cannot be empty");
}

#[test]
fn file_path_traversal_is_refused() {
    assert_eq!(
        err_of(validate_file_path("../secret")),
        "Invalid file path '../secret': path traversal ('..') is not allowed"
    );
    assert!(validate_file_path("a/../b").is_err());
    assert!(validate_file_path("a/b/..").is_err());
    assert!(validate_file_path("..").is_err());
    assert!(validate_file_path("/tmp//../x").is_err());
}

#[test]
fn file_path_dots_inside_names_are_accepted() {
    assert_eq!(validate_file_path("a/..b"), Ok(()));
    assert_eq!(validate_file_path("a../b"), Ok(()));
    assert_eq!(validate_file_path("..."), Ok(()));
    assert_eq!(validate_file_path("./shot.png"), Ok(()));
    assert_eq!(validate_file_path("/tmp/out.pdf"), Ok(()));
}

#[test]
fn file_path_sensitive_directories_are_refused() {
    assert_eq!(
        err_of(validate_file_path("/etc/passwd")),
        "Invalid file path '/etc/passwd': writing to '/etc' is not allowed"
    );
    assert_eq!(
        err_of(validate_file_path("/lib64/x.so")),
        "Invalid file path '/lib64/x.so': writing to '/lib' is not allowed"
    );
    assert_eq!(
        err_of(validate_file_path("/etcetera")),
        "Invalid file path '/etcetera': writing to '/etc' is not allowed"
    );
    for p in ["/usr/bin/x", "/boot/x", "/sys/x", "/proc/1", "/dev/null", "/sbin/init"] {
        assert!(validate_file_path(p).is_err(), "{}", p);
    }
    assert_eq!(validate_file_path("etc/passwd"), Ok(()));
}

#[test]
fn file_path_traversal_reported_before_directory() {
    assert_eq!(
        err_of(validate_file_path("/etc/../x")),
        "Invalid file path '/etc/../x': path traversal ('..') is not allowed"
    );
}
