use mcp_server_agent_browser::args::{session_args, validated_path};
use mcp_server_agent_browser::params::{
    CloseSessionParams, ConnectParams, CookieGetParams, CookieSetParams, DownloadParams,
    DragParams, EvalParams, GetAttrParams, GetHtmlParams, KeyParams, KeyboardTypeParams,
    NetworkParams, NewSessionParams, OptionalSelectorParams, PdfParams, ScreenshotParams,
    ScrollDirection, ScrollParams, SelectorParams, SelectorValueParams, SessionOnly,
    SnapshotParams, TypeTextParams, UploadParams, UrlParams, WaitParams, WaitState,
};
use mcp_server_agent_browser::tools::{
    check_args, clear_cookies_args, click_args, close_args, close_session_args, connect_args,
    dblclick_args, download_args, drag_args, evaluate_args, fill_args, focus_args,
    get_attribute_args, get_console_args, get_cookies_args, get_html_args, get_network_args,
    get_text_args, get_title_args, get_url_args, go_back_args, go_forward_args, hover_args,
    is_checked_args, is_enabled_args, is_visible_args, keyboard_inserttext_args,
    keyboard_type_args, navigate_args, new_session_args, pdf_args, press_args, reload_args,
    screenshot_args, scroll_args, scroll_into_view_args, select_args, set_cookies_args,
    snapshot_args, type_args, uncheck_args, upload_args, wait_args, wait_executor_timeout,
};
use rmcp::model::{ErrorCode, ErrorData};

fn s(x: &str) -> String {
    x.to_string()
}

fn words(v: &[&str]) -> Vec<String> {
    v.iter().map(|x| x.to_string()).collect()
}

fn ok(r: Result<Vec<String>, ErrorData>) -> Vec<String> {
    match r {
        Ok(v) => v,
        Err(e) => panic!("unexpected error: {}", e.message),
    }
}

fn err(r: Result<Vec<String>, ErrorData>) -> ErrorData {
    match r {
        Ok(v) => panic!("unexpected arguments: {:?}", v),
        Err(e) => e,
    }
}

fn sel(x: &str, sid: Option<&str>) -> SelectorParams {
    SelectorParams { selector: s(x), session_id: sid.map(s) }
}

fn only(sid: Option<&str>) -> SessionOnly {
    SessionOnly { session_id: sid.map(s) }
}

#[test]
fn session_args_cases() {
    assert_eq!(ok(session_args(None)), Vec::<String>::new());
    assert_eq!(ok(session_args(Some("work"))), words(&["--session", "work"]));
    let e = err(session_args(Some("")));
    assert_eq!(e.code, ErrorCode::INVALID_PARAMS);
    assert_eq!(e.message, "Session ID cannot be empty");
    assert_eq!(e.data, None);
}

#[test]
fn validated_path_cases() {
    assert!(validated_path("/tmp/a.png").is_ok());
    let e = validated_path("/etc/x").unwrap_err();
    assert_eq!(e.code, ErrorCode::INVALID_PARAMS);
    assert_eq!(e.message, "Invalid file path '/etc/x': writing to '/etc' is not allowed");
}

#[test]
fn navigation_tools() {
    let p = UrlParams { url: s("https://example.com"), session_id: Some(s("s1")) };
    assert_eq!(ok(navigate_args(p)), words(&["open", "https://example.com", "--session", "s1"]));
    assert_eq!(ok(go_back_args(only(None))), words(&["back"]));
    assert_eq!(ok(go_forward_args(only(None))), words(&["forward"]));
    assert_eq!(ok(reload_args(only(Some("x")))), words(&["reload", "--session", "x"]));
}

#[test]
fn navigation_with_bad_session_is_refused() {
    let p = UrlParams { url: s("https://example.com"), session_id: Some(s("bad id")) };
    let e = err(navigate_args(p));
    assert_eq!(e.code, ErrorCode::INVALID_PARAMS);
    assert_eq!(
        e.message,
        "Invalid session ID 'bad id': only alphanumeric, hyphens, underscores, and dots allowed"
    );
}

#[test]
fn interaction_tools() {
    assert_eq!(ok(click_args(sel("#b", None))), words(&["click", "#b"]));
    assert_eq!(ok(dblclick_args(sel("@e1", None))), words(&["dblclick", "@e1"]));
    assert_eq!(ok(hover_args(sel("a", None))), words(&["hover", "a"]));
    assert_eq!(ok(focus_args(sel("a", None))), words(&["focus", "a"]));
    assert_eq!(ok(check_args(sel("a", None))), words(&["check", "a"]));
    assert_eq!(ok(uncheck_args(sel("a", None))), words(&["uncheck", "a"]));
    assert_eq!(ok(scroll_into_view_args(sel("a", None))), words(&["scrollintoview", "a"]));
    let fill = SelectorValueParams { selector: s("#q"), value: s("rust"), session_id: None };
    assert_eq!(ok(fill_args(fill)), words(&["fill", "#q", "rust"]));
    let select = SelectorValueParams { selector: s("#c"), value: s("red"), session_id: None };
    assert_eq!(ok(select_args(select)), words(&["select", "#c", "red"]));
    let typed = TypeTextParams { selector: s("#q"), text: s("hi there"), session_id: None };
    assert_eq!(ok(type_args(typed)), words(&["type", "#q", "hi there"]));
    let kt = KeyboardTypeParams { text: s("abc"), session_id: None };
    assert_eq!(ok(keyboard_type_args(kt)), words(&["keyboard", "type", "abc"]));
    let ki = KeyboardTypeParams { text: s("abc"), session_id: Some(s("k")) };
    assert_eq!(
        ok(keyboard_inserttext_args(ki)),
        words(&["keyboard", "inserttext", "abc", "--session", "k"])
    );
    let key = KeyParams { key: s("Control+a"), session_id: None };
    assert_eq!(ok(press_args(key)), words(&["press", "Control+a"]));
    let drag = DragParams { source: s("#a"), destination: s("#b"), session_id: None };
    assert_eq!(ok(drag_args(drag)), words(&["drag", "#a", "#b"]));
}

#[test]
fn scroll_tool() {
    let p = ScrollParams { direction: ScrollDirection::Down, amount: Some(300), session_id: None };
    assert_eq!(ok(scroll_args(p)), words(&["scroll", "down", "300"]));
    let p = ScrollParams { direction: ScrollDirection::Left, amount: None, session_id: Some(s("a")) };
    assert_eq!(ok(scroll_args(p)), words(&["scroll", "left", "--session", "a"]));
    let p = ScrollParams { direction: ScrollDirection::Up, amount: Some(0), session_id: None };
    assert_eq!(ok(scroll_args(p)), words(&["scroll", "up", "0"]));
    let p = ScrollParams { direction: ScrollDirection::Right, amount: Some(u32::MAX), session_id: None };
    assert_eq!(ok(scroll_args(p)), words(&["scroll", "right", "4294967295"]));
}

#[test]
fn upload_tool() {
    let p = UploadParams {
        selector: s("#f"),
        files: words(&["/tmp/a.txt", "b.txt"]),
        session_id: Some(s("u")),
    };
    assert_eq!(
        ok(upload_args(p)),
        words(&["upload", "#f", "/tmp/a.txt", "b.txt", "--session", "u"])
    );
    let p = UploadParams {
        selector: s("#f"),
        files: words(&["ok.txt", "../x", "/etc/y"]),
        session_id: Some(s("bad id")),
    };
    let e = err(upload_args(p));
    assert_eq!(e.message, "Invalid file path '../x': path traversal ('..') is not allowed");
    let p = UploadParams { selector: s("#f"), files: vec![], session_id: None };
    assert_eq!(ok(upload_args(p)), words(&["upload", "#f"]));
}

#[test]
fn download_and_pdf_tools() {
    let p = DownloadParams { selector: s("#d"), path: s("/tmp/f.zip"), session_id: None };
    assert_eq!(ok(download_args(p)), words(&["download", "#d", "/tmp/f.zip"]));
    let p = DownloadParams { selector: s("#d"), path: s("/dev/x"), session_id: None };
    assert_eq!(err(download_args(p)).message, "Invalid file path '/dev/x': writing to '/dev' is not allowed");
    let p = PdfParams { path: s("out.pdf"), session_id: Some(s("p")) };
    assert_eq!(ok(pdf_args(p)), words(&["pdf", "out.pdf", "--session", "p"]));
    let p = PdfParams { path: s(""), session_id: None };
    assert_eq!(err(pdf_args(p)).message, "File path cannot be empty");
}

#[test]
fn information_tools() {
    let p = OptionalSelectorParams { selector: None, session_id: None };
    assert_eq!(ok(get_text_args(p)), words(&["get", "text"]));
    let p = OptionalSelectorParams { selector: Some(s("h1")), session_id: None };
    assert_eq!(ok(get_text_args(p)), words(&["get", "text", "h1"]));
    let p = GetHtmlParams { selector: Some(s("main")), outer: Some(true), session_id: None };
    assert_eq!(ok(get_html_args(p)), words(&["get", "html", "main", "--outer"]));
    let p = GetHtmlParams { selector: None, outer: Some(false), session_id: None };
    assert_eq!(ok(get_html_args(p)), words(&["get", "html"]));
    let p = GetAttrParams { selector: s("a"), attribute: s("href"), session_id: None };
    assert_eq!(ok(get_attribute_args(p)), words(&["get", "attr", "a", "href"]));
    assert_eq!(ok(get_url_args(only(None))), words(&["get", "url"]));
    assert_eq!(ok(get_title_args(only(None))), words(&["get", "title"]));
    assert_eq!(ok(is_visible_args(sel("x", None))), words(&["is", "visible", "x"]));
    assert_eq!(ok(is_enabled_args(sel("x", None))), words(&["is", "enabled", "x"]));
    assert_eq!(ok(is_checked_args(sel("x", None))), words(&["is", "checked", "x"]));
}

#[test]
fn snapshot_tool() {
    let p = SnapshotParams {
        interactive: Some(true),
        compact: Some(true),
        depth: Some(3),
        selector: Some(s("#main")),
        json: Some(true),
        session_id: Some(s("a")),
    };
    assert_eq!(
        ok(snapshot_args(p)),
        words(&["snapshot", "-i", "-c", "-d", "3", "-s", "#main", "--json", "--session", "a"])
    );
    let p = SnapshotParams {
        interactive: Some(false),
        compact: None,
        depth: None,
        selector: None,
        json: Some(false),
        session_id: None,
    };
    assert_eq!(ok(snapshot_args(p)), words(&["snapshot"]));
}

#[test]
fn screenshot_tool() {
    let p = ScreenshotParams {
        path: Some(s("shot.png")),
        selector: Some(s("#hero")),
        full_page: Some(true),
        annotate: Some(true),
        session_id: None,
    };
    assert_eq!(
        ok(screenshot_args(p)),
        words(&["screenshot", "shot.png", "--selector", "#hero", "--full", "--annotate"])
    );
    let p = ScreenshotParams {
        path: None,
        selector: None,
        full_page: None,
        annotate: None,
        session_id: None,
    };
    assert_eq!(ok(screenshot_args(p)), words(&["screenshot"]));
    let p = ScreenshotParams {
        path: Some(s("/proc/x")),
        selector: None,
        full_page: None,
        annotate: None,
        session_id: Some(s("")),
    };
    assert_eq!(err(screenshot_args(p)).message, "Invalid file path '/proc/x': writing to '/proc' is not allowed");
}

#[test]
fn session_tools() {
    let p = NewSessionParams { width: Some(1280), height: Some(720) };
    assert_eq!(new_session_args(p), words(&["session", "new", "--width", "1280", "--height", "720"]));
    let p = NewSessionParams { width: None, height: Some(1) };
    assert_eq!(new_session_args(p), words(&["session", "new", "--height", "1"]));
    let p = CloseSessionParams { session_id: s("s-1") };
    assert_eq!(ok(close_session_args(p)), words(&["close", "--session", "s-1"]));
    let p = CloseSessionParams { session_id: s("") };
    let e = err(close_session_args(p));
    assert_eq!(e.code, ErrorCode::INVALID_PARAMS);
    assert_eq!(e.message, "Session ID cannot be empty");
    assert_eq!(close_args(only(None)), words(&["close"]));
    assert_eq!(close_args(only(Some("z"))), words(&["close"]));
    assert_eq!(close_args(only(Some("bad id"))), words(&["close"]));
}

#[test]
fn wait_tool() {
    let p = WaitParams {
        selector: s("#x"),
        timeout: Some(5000),
        state: Some(WaitState::Visible),
        session_id: None,
    };
    assert_eq!(ok(wait_args(p)), words(&["wait", "#x", "--timeout", "5000", "--state", "visible"]));
    let p = WaitParams { selector: s("2000"), timeout: None, state: None, session_id: None };
    assert_eq!(ok(wait_args(p)), words(&["wait", "2000"]));
    for (st, w) in [
        (WaitState::Attached, "attached"),
        (WaitState::Detached, "detached"),
        (WaitState::Hidden, "hidden"),
    ] {
        let p = WaitParams { selector: s("a"), timeout: None, state: Some(st), session_id: None };
        assert_eq!(ok(wait_args(p)), words(&["wait", "a", "--state", w]));
    }
}

#[test]
fn wait_executor_timeout_cases() {
    assert_eq!(wait_executor_timeout(None), None);
    assert_eq!(wait_executor_timeout(Some(5000)), Some(15));
    assert_eq!(wait_executor_timeout(Some(999)), Some(10));
    assert_eq!(wait_executor_timeout(Some(120_500)), Some(130));
    assert_eq!(wait_executor_timeout(Some(u64::MAX)), Some(u64::MAX / 1000 + 10));
}

#[test]
fn cookie_tools() {
    let p = CookieGetParams {
        urls: Some(words(&["https://a", "https://b"])),
        json: Some(true),
        session_id: Some(s("s")),
    };
    assert_eq!(
        ok(get_cookies_args(p)),
        words(&["cookies", "get", "--json", "--session", "s", "--", "https://a", "https://b"])
    );
    let p = CookieGetParams { urls: Some(vec![]), json: None, session_id: None };
    assert_eq!(ok(get_cookies_args(p)), words(&["cookies", "get", "--"]));
    let p = CookieGetParams { urls: None, json: None, session_id: None };
    assert_eq!(ok(get_cookies_args(p)), words(&["cookies", "get"]));
    let p = CookieSetParams { cookies: s("[{\"name\":\"a\",\"value\":\"1\"}]"), session_id: None };
    assert_eq!(
        ok(set_cookies_args(p)),
        words(&["cookies", "set", "[{\"name\":\"a\",\"value\":\"1\"}]"])
    );
    assert_eq!(ok(clear_cookies_args(only(None))), words(&["cookies", "clear"]));
}

#[test]
fn other_tools() {
    let p = EvalParams { script: s("document.title"), session_id: None };
    assert_eq!(ok(evaluate_args(p)), words(&["eval", "document.title"]));
    assert_eq!(ok(get_console_args(only(None))), words(&["console"]));
    let p = NetworkParams { json: Some(true), session_id: None };
    assert_eq!(ok(get_network_args(p)), words(&["network", "requests", "--json"]));
    let p = NetworkParams { json: None, session_id: None };
    assert_eq!(ok(get_network_args(p)), words(&["network", "requests"]));
    let p = ConnectParams { target: s("9222") };
    assert_eq!(connect_args(p), words(&["connect", "9222"]));
}
