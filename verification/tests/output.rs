use mcp_server_agent_browser::output::{
    effective_timeout, interpret_output, spawn_failure_message, timeout_message,
};
use mcp_server_agent_browser::protocol::tool_result;
use mcp_server_agent_browser::text::{is_whitespace, starts_with, trim_end, u64_to_decimal};
use rmcp::model::ContentBlock;

#[test]
fn success_output_is_trimmed() {
    assert_eq!(interpret_output(true, b"hello  \n", b""), Ok("hello".to_string()));
    assert_eq!(interpret_output(true, b"  lead\n", b"ignored"), Ok("  lead".to_string()));
}

#[test]
fn empty_success_output_gets_a_message() {
    assert_eq!(
        interpret_output(true, b"", b""),
        Ok("Command executed successfully".to_string())
    );
    assert_eq!(
        interpret_output(true, b" \r\n\t", b"noise"),
        Ok("Command executed successfully".to_string())
    );
}

#[test]
fn failure_prefers_stderr() {
    assert_eq!(interpret_output(false, b"out\n", b"boom\n"), Err("boom".to_string()));
    assert_eq!(interpret_output(false, b"out\n", b"  \n"), Err("out".to_string()));
    assert_eq!(interpret_output(false, b"", b""), Err("".to_string()));
}

#[test]
fn invalid_utf8_is_replaced() {
    assert_eq!(interpret_output(true, b"a\xffb", b""), Ok("a\u{FFFD}b".to_string()));
}

#[test]
fn timeouts() {
    assert_eq!(effective_timeout(None), 60);
    assert_eq!(effective_timeout(Some(5)), 5);
    assert_eq!(timeout_message(60), "agent-browser timed out after 60s");
    assert_eq!(timeout_message(0), "agent-browser timed out after 0s");
}

#[test]
fn spawn_failure_text() {
    assert_eq!(
        spawn_failure_message("No such file or directory (os error 2)"),
        "Failed to execute agent-browser: No such file or directory (os error 2)"
    );
}

#[test]
fn decimal_text() {
    assert_eq!(u64_to_decimal(0), "0");
    assert_eq!(u64_to_decimal(7), "7");
    assert_eq!(u64_to_decimal(10), "10");
    assert_eq!(u64_to_decimal(1234567890), "1234567890");
    assert_eq!(u64_to_decimal(u64::MAX), u64::MAX.to_string());
}

#[test]
fn trim_end_removes_unicode_whitespace() {
    assert_eq!(trim_end("a b \t\n\u{3000}\u{0B}"), "a b");
    assert_eq!(trim_end("   "), "");
    assert_eq!(trim_end(""), "");
    assert_eq!(trim_end("x"), "x");
    let once = trim_end("keep  \n");
    assert_eq!(trim_end(&once), once);
}

#[test]
fn prefix_check() {
    assert!(starts_with("/etc/x", "/etc"));
    assert!(!starts_with("/et", "/etc"));
    assert!(starts_with("abc", ""));
    assert!(!starts_with("xetc", "/etc"));
}

fn text_of(block: &ContentBlock) -> String {
    match block {
        ContentBlock::Text(t) => t.text.clone(),
        _ => panic!("expected a text block"),
    }
}

#[test]
fn tool_result_marks_errors() {
    let ok = tool_result(Ok("done".to_string()));
    assert_eq!(ok.is_error, Some(false));
    assert_eq!(ok.content.len(), 1);
    assert_eq!(text_of(&ok.content[0]), "done");

    let err = tool_result(Err("failed".to_string()));
    assert_eq!(err.is_error, Some(true));
    assert_eq!(err.content.len(), 1);
    assert_eq!(text_of(&err.content[0]), "failed");
}


#[test]
fn whitespace_agrees_with_std() {
    for u in 0u32..=0x10FFFF {
        if let Some(c) = char::from_u32(u) {
            assert_eq!(is_whitespace(c), c.is_whitespace(), "U+{:04X}", u);
        }
    }
}

#[test]
fn trim_end_removes_next_line_and_no_break_space() {
    assert_eq!(trim_end("x\u{85}\u{A0}\u{2028}"), "x");
    assert_eq!(trim_end("x\u{200B}"), "x\u{200B}");
}
