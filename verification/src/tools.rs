//! The command-line arguments of each browser tool, built from its parameters.
//! A tool that takes a session identifier or a file path checks it first and
//! answers a refused one with an invalid-parameters error.

use vstd::prelude::*;
use rmcp::model::ErrorData;
use crate::args::{
    args_outcome, extend_session, flag_if, new_args, opt_arg, opt_flag_arg, opt_view, push_all,
    push_flag_if, push_opt, push_opt_flag, push_string, push_word, session_args_spec, strs,
    with_session,
};
use crate::params::{
    CloseSessionParams, ConnectParams, CookieGetParams, CookieSetParams, DownloadParams,
    DragParams, EvalParams, GetAttrParams, GetHtmlParams, KeyParams, KeyboardTypeParams,
    NetworkParams, NewSessionParams, OptionalSelectorParams, PdfParams, ScreenshotParams,
    ScrollDirection, ScrollParams, SelectorParams, SelectorValueParams, SessionOnly,
    SnapshotParams, TypeTextParams, UploadParams, UrlParams, WaitParams, WaitState,
};
use crate::protocol::invalid_params_error;
use crate::text::{decimal, u64_to_decimal};
use crate::validate::{file_path_error, session_id_error, validate_session_id};

verus! {

/// Navigate to a URL: `open`, the url, then the session arguments.
pub fn navigate_args(p: UrlParams) -> (r: Result<Vec<String>, ErrorData>)
    ensures
        args_outcome(r, with_session(seq!["open"@, p.url@], opt_view(p.session_id))),
{
    let mut a = new_args("open");
    push_string(&mut a, p.url);
    assert(strs(a@) =~= seq!["open"@, p.url@]);
    extend_session(a, &p.session_id)
}

/// Go back in the history: `back`, then the session arguments.
pub fn go_back_args(p: SessionOnly) -> (r: Result<Vec<String>, ErrorData>)
    ensures
        args_outcome(r, with_session(seq!["back"@], opt_view(p.session_id))),
{
    let mut a = new_args("back");
    assert(strs(a@) =~= seq!["back"@]);
    extend_session(a, &p.session_id)
}

/// Go forward in the history: `forward`, then the session arguments.
pub fn go_forward_args(p: SessionOnly) -> (r: Result<Vec<String>, ErrorData>)
    ensures
        args_outcome(r, with_session(seq!["forward"@], opt_view(p.session_id))),
{
    let mut a = new_args("forward");
    assert(strs(a@) =~= seq!["forward"@]);
    extend_session(a, &p.session_id)
}

/// Reload the page: `reload`, then the session arguments.
pub fn reload_args(p: SessionOnly) -> (r: Result<Vec<String>, ErrorData>)
    ensures
        args_outcome(r, with_session(seq!["reload"@], opt_view(p.session_id))),
{
    let mut a = new_args("reload");
    assert(strs(a@) =~= seq!["reload"@]);
    extend_session(a, &p.session_id)
}

/// Click an element: `click`, the selector, then the session arguments.
pub fn click_args(p: SelectorParams) -> (r: Result<Vec<String>, ErrorData>)
    ensures
        args_outcome(r, with_session(seq!["click"@, p.selector@], opt_view(p.session_id))),
{
    let mut a = new_args("click");
    push_string(&mut a, p.selector);
    assert(strs(a@) =~= seq!["click"@, p.selector@]);
    extend_session(a, &p.session_id)
}

/// Double-click an element: `dblclick`, the selector, then the session arguments.
pub fn dblclick_args(p: SelectorParams) -> (r: Result<Vec<String>, ErrorData>)
    ensures
        args_outcome(r, with_session(seq!["dblclick"@, p.selector@], opt_view(p.session_id))),
{
    let mut a = new_args("dblclick");
    push_string(&mut a, p.selector);
    assert(strs(a@) =~= seq!["dblclick"@, p.selector@]);
    extend_session(a, &p.session_id)
}

/// Fill a text input: `fill`, the selector, the value, then the session arguments.
pub fn fill_args(p: SelectorValueParams) -> (r: Result<Vec<String>, ErrorData>)
    ensures
        args_outcome(r, with_session(seq!["fill"@, p.selector@, p.value@], opt_view(p.session_id))),
{
    let mut a = new_args("fill");
    push_string(&mut a, p.selector);
    push_string(&mut a, p.value);
    assert(strs(a@) =~= seq!["fill"@, p.selector@, p.value@]);
    extend_session(a, &p.session_id)
}

/// Type text into an element: `type`, the selector, the text, then the session arguments.
pub fn type_args(p: TypeTextParams) -> (r: Result<Vec<String>, ErrorData>)
    ensures
        args_outcome(r, with_session(seq!["type"@, p.selector@, p.text@], opt_view(p.session_id))),
{
    let mut a = new_args("type");
    push_string(&mut a, p.selector);
    push_string(&mut a, p.text);
    assert(strs(a@) =~= seq!["type"@, p.selector@, p.text@]);
    extend_session(a, &p.session_id)
}

/// Type with real keystrokes: `keyboard` `type`, the text, then the session arguments.
pub fn keyboard_type_args(p: KeyboardTypeParams) -> (r: Result<Vec<String>, ErrorData>)
    ensures
        args_outcome(r, with_session(seq!["keyboard"@, "type"@, p.text@], opt_view(p.session_id))),
{
    let mut a = new_args("keyboard");
    push_word(&mut a, "type");
    push_string(&mut a, p.text);
    assert(strs(a@) =~= seq!["keyboard"@, "type"@, p.text@]);
    extend_session(a, &p.session_id)
}

/// Insert text without key events: `keyboard` `inserttext`, the text, then the session arguments.
pub fn keyboard_inserttext_args(p: KeyboardTypeParams) -> (r: Result<Vec<String>, ErrorData>)
    ensures
        args_outcome(r, with_session(seq!["keyboard"@, "inserttext"@, p.text@], opt_view(p.session_id))),
{
    let mut a = new_args("keyboard");
    push_word(&mut a, "inserttext");
    push_string(&mut a, p.text);
    assert(strs(a@) =~= seq!["keyboard"@, "inserttext"@, p.text@]);
    extend_session(a, &p.session_id)
}

/// Press a key: `press`, the key, then the session arguments.
pub fn press_args(p: KeyParams) -> (r: Result<Vec<String>, ErrorData>)
    ensures
        args_outcome(r, with_session(seq!["press"@, p.key@], opt_view(p.session_id))),
{
    let mut a = new_args("press");
    push_string(&mut a, p.key);
    assert(strs(a@) =~= seq!["press"@, p.key@]);
    extend_session(a, &p.session_id)
}

/// Hover over an element: `hover`, the selector, then the session arguments.
pub fn hover_args(p: SelectorParams) -> (r: Result<Vec<String>, ErrorData>)
    ensures
        args_outcome(r, with_session(seq!["hover"@, p.selector@], opt_view(p.session_id))),
{
    let mut a = new_args("hover");
    push_string(&mut a, p.selector);
    assert(strs(a@) =~= seq!["hover"@, p.selector@]);
    extend_session(a, &p.session_id)
}

/// Focus an element: `focus`, the selector, then the session arguments.
pub fn focus_args(p: SelectorParams) -> (r: Result<Vec<String>, ErrorData>)
    ensures
        args_outcome(r, with_session(seq!["focus"@, p.selector@], opt_view(p.session_id))),
{
    let mut a = new_args("focus");
    push_string(&mut a, p.selector);
    assert(strs(a@) =~= seq!["focus"@, p.selector@]);
    extend_session(a, &p.session_id)
}

/// Scroll an element into view: `scrollintoview`, the selector, then the session arguments.
pub fn scroll_into_view_args(p: SelectorParams) -> (r: Result<Vec<String>, ErrorData>)
    ensures
        args_outcome(r, with_session(seq!["scrollintoview"@, p.selector@], opt_view(p.session_id))),
{
    let mut a = new_args("scrollintoview");
    push_string(&mut a, p.selector);
    assert(strs(a@) =~= seq!["scrollintoview"@, p.selector@]);
    extend_session(a, &p.session_id)
}

/// Select a dropdown option: `select`, the selector, the value, then the session arguments.
pub fn select_args(p: SelectorValueParams) -> (r: Result<Vec<String>, ErrorData>)
    ensures
        args_outcome(r, with_session(seq!["select"@, p.selector@, p.value@], opt_view(p.session_id))),
{
    let mut a = new_args("select");
    push_string(&mut a, p.selector);
    push_string(&mut a, p.value);
    assert(strs(a@) =~= seq!["select"@, p.selector@, p.value@]);
    extend_session(a, &p.session_id)
}

/// Check a checkbox or radio button: `check`, the selector, then the session arguments.
pub fn check_args(p: SelectorParams) -> (r: Result<Vec<String>, ErrorData>)
    ensures
        args_outcome(r, with_session(seq!["check"@, p.selector@], opt_view(p.session_id))),
{
    let mut a = new_args("check");
    push_string(&mut a, p.selector);
    assert(strs(a@) =~= seq!["check"@, p.selector@]);
    extend_session(a, &p.session_id)
}

/// Uncheck a checkbox: `uncheck`, the selector, then the session arguments.
pub fn uncheck_args(p: SelectorParams) -> (r: Result<Vec<String>, ErrorData>)
    ensures
        args_outcome(r, with_session(seq!["uncheck"@, p.selector@], opt_view(p.session_id))),
{
    let mut a = new_args("uncheck");
    push_string(&mut a, p.selector);
    assert(strs(a@) =~= seq!["uncheck"@, p.selector@]);
    extend_session(a, &p.session_id)
}

/// Drag an element onto another: `drag`, the source, the destination, then the session arguments.
pub fn drag_args(p: DragParams) -> (r: Result<Vec<String>, ErrorData>)
    ensures
        args_outcome(r, with_session(seq!["drag"@, p.source@, p.destination@], opt_view(p.session_id))),
{
    let mut a = new_args("drag");
    push_string(&mut a, p.source);
    push_string(&mut a, p.destination);
    assert(strs(a@) =~= seq!["drag"@, p.source@, p.destination@]);
    extend_session(a, &p.session_id)
}

/// Read an attribute: `get` `attr`, the selector, the attribute, then the session arguments.
pub fn get_attribute_args(p: GetAttrParams) -> (r: Result<Vec<String>, ErrorData>)
    ensures
        args_outcome(r, with_session(seq!["get"@, "attr"@, p.selector@, p.attribute@], opt_view(p.session_id))),
{
    let mut a = new_args("get");
    push_word(&mut a, "attr");
    push_string(&mut a, p.selector);
    push_string(&mut a, p.attribute);
    assert(strs(a@) =~= seq!["get"@, "attr"@, p.selector@, p.attribute@]);
    extend_session(a, &p.session_id)
}

/// Read the page URL: `get` `url`, then the session arguments.
pub fn get_url_args(p: SessionOnly) -> (r: Result<Vec<String>, ErrorData>)
    ensures
        args_outcome(r, with_session(seq!["get"@, "url"@], opt_view(p.session_id))),
{
    let mut a = new_args("get");
    push_word(&mut a, "url");
    assert(strs(a@) =~= seq!["get"@, "url"@]);
    extend_session(a, &p.session_id)
}

/// Read the page title: `get` `title`, then the session arguments.
pub fn get_title_args(p: SessionOnly) -> (r: Result<Vec<String>, ErrorData>)
    ensures
        args_outcome(r, with_session(seq!["get"@, "title"@], opt_view(p.session_id))),
{
    let mut a = new_args("get");
    push_word(&mut a, "title");
    assert(strs(a@) =~= seq!["get"@, "title"@]);
    extend_session(a, &p.session_id)
}

/// Ask whether an element is visible: `is` `visible`, the selector, then the session arguments.
pub fn is_visible_args(p: SelectorParams) -> (r: Result<Vec<String>, ErrorData>)
    ensures
        args_outcome(r, with_session(seq!["is"@, "visible"@, p.selector@], opt_view(p.session_id))),
{
    let mut a = new_args("is");
    push_word(&mut a, "visible");
    push_string(&mut a, p.selector);
    assert(strs(a@) =~= seq!["is"@, "visible"@, p.selector@]);
    extend_session(a, &p.session_id)
}

/// Ask whether an element is enabled: `is` `enabled`, the selector, then the session arguments.
pub fn is_enabled_args(p: SelectorParams) -> (r: Result<Vec<String>, ErrorData>)
    ensures
        args_outcome(r, with_session(seq!["is"@, "enabled"@, p.selector@], opt_view(p.session_id))),
{
    let mut a = new_args("is");
    push_word(&mut a, "enabled");
    push_string(&mut a, p.selector);
    assert(strs(a@) =~= seq!["is"@, "enabled"@, p.selector@]);
    extend_session(a, &p.session_id)
}

/// Ask whether a checkbox or radio button is checked: `is` `checked`, the selector, then the session arguments.
pub fn is_checked_args(p: SelectorParams) -> (r: Result<Vec<String>, ErrorData>)
    ensures
        args_outcome(r, with_session(seq!["is"@, "checked"@, p.selector@], opt_view(p.session_id))),
{
    let mut a = new_args("is");
    push_word(&mut a, "checked");
    push_string(&mut a, p.selector);
    assert(strs(a@) =~= seq!["is"@, "checked"@, p.selector@]);
    extend_session(a, &p.session_id)
}

/// Set cookies: `cookies` `set`, the cookies, then the session arguments.
pub fn set_cookies_args(p: CookieSetParams) -> (r: Result<Vec<String>, ErrorData>)
    ensures
        args_outcome(r, with_session(seq!["cookies"@, "set"@, p.cookies@], opt_view(p.session_id))),
{
    let mut a = new_args("cookies");
    push_word(&mut a, "set");
    push_string(&mut a, p.cookies);
    assert(strs(a@) =~= seq!["cookies"@, "set"@, p.cookies@]);
    extend_session(a, &p.session_id)
}

/// Clear all cookies: `cookies` `clear`, then the session arguments.
pub fn clear_cookies_args(p: SessionOnly) -> (r: Result<Vec<String>, ErrorData>)
    ensures
        args_outcome(r, with_session(seq!["cookies"@, "clear"@], opt_view(p.session_id))),
{
    let mut a = new_args("cookies");
    push_word(&mut a, "clear");
    assert(strs(a@) =~= seq!["cookies"@, "clear"@]);
    extend_session(a, &p.session_id)
}

/// Evaluate JavaScript: `eval`, the script, then the session arguments.
pub fn evaluate_args(p: EvalParams) -> (r: Result<Vec<String>, ErrorData>)
    ensures
        args_outcome(r, with_session(seq!["eval"@, p.script@], opt_view(p.session_id))),
{
    let mut a = new_args("eval");
    push_string(&mut a, p.script);
    assert(strs(a@) =~= seq!["eval"@, p.script@]);
    extend_session(a, &p.session_id)
}

/// Read the console messages: `console`, then the session arguments.
pub fn get_console_args(p: SessionOnly) -> (r: Result<Vec<String>, ErrorData>)
    ensures
        args_outcome(r, with_session(seq!["console"@], opt_view(p.session_id))),
{
    let mut a = new_args("console");
    assert(strs(a@) =~= seq!["console"@]);
    extend_session(a, &p.session_id)
}

/// Close the browser daemon and all its sessions: `close` alone, whatever the
/// parameters hold. A session identifier does not narrow it; closing a single
/// session is `close_session_args`.
pub fn close_args(_p: SessionOnly) -> (r: Vec<String>)
    ensures
        strs(r@) == seq!["close"@],
{
    new_args("close")
}


/// The word that names a scroll direction on the command line.
pub open spec fn scroll_word(d: ScrollDirection) -> Seq<char> {
    match d {
        ScrollDirection::Up => "up"@,
        ScrollDirection::Down => "down"@,
        ScrollDirection::Left => "left"@,
        ScrollDirection::Right => "right"@,
    }
}

/// The word for `d`.
pub fn scroll_direction_word(d: ScrollDirection) -> (w: &'static str)
    ensures
        w@ == scroll_word(d),
{
    match d {
        ScrollDirection::Up => "up",
        ScrollDirection::Down => "down",
        ScrollDirection::Left => "left",
        ScrollDirection::Right => "right",
    }
}

/// The word that names an element state on the command line.
pub open spec fn wait_state_word(s: WaitState) -> Seq<char> {
    match s {
        WaitState::Attached => "attached"@,
        WaitState::Detached => "detached"@,
        WaitState::Visible => "visible"@,
        WaitState::Hidden => "hidden"@,
    }
}

/// The word for `s`.
pub fn wait_state_name(s: WaitState) -> (w: &'static str)
    ensures
        w@ == wait_state_word(s),
{
    match s {
        WaitState::Attached => "attached",
        WaitState::Detached => "detached",
        WaitState::Visible => "visible",
        WaitState::Hidden => "hidden",
    }
}

/// The decimal text of an optional number.
pub open spec fn opt_decimal(o: Option<nat>) -> Option<Seq<char>> {
    match o {
        Some(n) => Some(decimal(n)),
        None => None,
    }
}

/// An optional `u32` as a natural number.
pub open spec fn opt_nat32(o: Option<u32>) -> Option<nat> {
    match o {
        Some(n) => Some(n as nat),
        None => None,
    }
}

/// An optional `u64` as a natural number.
pub open spec fn opt_nat64(o: Option<u64>) -> Option<nat> {
    match o {
        Some(n) => Some(n as nat),
        None => None,
    }
}

/// The decimal text of an optional `u32`.
pub fn opt_u32_text(o: Option<u32>) -> (r: Option<String>)
    ensures
        opt_view(r) == opt_decimal(opt_nat32(o)),
{
    match o {
        Some(n) => Some(u64_to_decimal(n as u64)),
        None => None,
    }
}

/// The decimal text of an optional `u64`.
pub fn opt_u64_text(o: Option<u64>) -> (r: Option<String>)
    ensures
        opt_view(r) == opt_decimal(opt_nat64(o)),
{
    match o {
        Some(n) => Some(u64_to_decimal(n)),
        None => None,
    }
}

/// Scroll the page: `scroll`, the direction and the amount in pixels when
/// given, then the session arguments.
pub fn scroll_args(p: ScrollParams) -> (r: Result<Vec<String>, ErrorData>)
    ensures
        args_outcome(
            r,
            with_session(
                seq!["scroll"@, scroll_word(p.direction)] + opt_arg(opt_decimal(opt_nat32(p.amount))),
                opt_view(p.session_id),
            ),
        ),
{
    let mut a = new_args("scroll");
    push_word(&mut a, scroll_direction_word(p.direction));
    assert(strs(a@) =~= seq!["scroll"@, scroll_word(p.direction)]);
    push_opt(&mut a, opt_u32_text(p.amount));
    extend_session(a, &p.session_id)
}

/// Why the first refused path of `paths` is refused, if one is.
pub open spec fn first_path_error(paths: Seq<Seq<char>>) -> Option<Seq<char>>
    decreases paths.len(),
{
    if paths.len() == 0 {
        None
    } else {
        match file_path_error(paths[0]) {
            Some(m) => Some(m),
            None => first_path_error(paths.drop_first()),
        }
    }
}

/// Upload files: every path is checked in turn and the first refused one
/// answers the call; otherwise `upload`, the selector, the paths, then the
/// session arguments.
pub fn upload_args(p: UploadParams) -> (r: Result<Vec<String>, ErrorData>)
    ensures
        args_outcome(
            r,
            match first_path_error(strs(p.files@)) {
                Some(m) => Err(m),
                None => with_session(
                    seq!["upload"@, p.selector@] + strs(p.files@),
                    opt_view(p.session_id),
                ),
            },
        ),
{
    let ghost fs = strs(p.files@);
    let mut i: usize = 0;
    assert(fs.skip(0) =~= fs);
    while i < p.files.len()
        invariant
            fs == strs(p.files@),
            i <= p.files.len(),
            first_path_error(fs) == first_path_error(fs.skip(i as int)),
        decreases p.files.len() - i,
    {
        assert(fs.skip(i as int).drop_first() =~= fs.skip(i + 1));
        assert(fs.skip(i as int)[0] == p.files@[i as int]@);
        match validated_path_of(&p.files[i]) {
            Ok(()) => {},
            Err(e) => {
                return Err(e);
            },
        }
        i = i + 1;
    }
    assert(fs.skip(i as int) =~= Seq::<Seq<char>>::empty());
    let mut a = new_args("upload");
    push_string(&mut a, p.selector);
    assert(strs(a@) =~= seq!["upload"@, p.selector@]);
    push_all(&mut a, p.files);
    extend_session(a, &p.session_id)
}

/// Checks a path held in a `String`.
fn validated_path_of(path: &String) -> (r: Result<(), ErrorData>)
    ensures
        match file_path_error(path@) {
            None => r is Ok,
            Some(m) => r is Err && r->Err_0 == invalid_params_error(m),
        },
{
    crate::args::validated_path(path.as_str())
}

/// Download a file: the path is checked first; then `download`, the selector,
/// the path, then the session arguments.
pub fn download_args(p: DownloadParams) -> (r: Result<Vec<String>, ErrorData>)
    ensures
        args_outcome(
            r,
            match file_path_error(p.path@) {
                Some(m) => Err(m),
                None => with_session(seq!["download"@, p.selector@, p.path@], opt_view(p.session_id)),
            },
        ),
{
    match validated_path_of(&p.path) {
        Ok(()) => {},
        Err(e) => {
            return Err(e);
        },
    }
    let mut a = new_args("download");
    push_string(&mut a, p.selector);
    push_string(&mut a, p.path);
    assert(strs(a@) =~= seq!["download"@, p.selector@, p.path@]);
    extend_session(a, &p.session_id)
}

/// Generate a PDF: the path is checked first; then `pdf`, the path, then the
/// session arguments.
pub fn pdf_args(p: PdfParams) -> (r: Result<Vec<String>, ErrorData>)
    ensures
        args_outcome(
            r,
            match file_path_error(p.path@) {
                Some(m) => Err(m),
                None => with_session(seq!["pdf"@, p.path@], opt_view(p.session_id)),
            },
        ),
{
    match validated_path_of(&p.path) {
        Ok(()) => {},
        Err(e) => {
            return Err(e);
        },
    }
    let mut a = new_args("pdf");
    push_string(&mut a, p.path);
    assert(strs(a@) =~= seq!["pdf"@, p.path@]);
    extend_session(a, &p.session_id)
}

/// Read text: `get`, `text`, the selector when given, then the session
/// arguments.
pub fn get_text_args(p: OptionalSelectorParams) -> (r: Result<Vec<String>, ErrorData>)
    ensures
        args_outcome(
            r,
            with_session(seq!["get"@, "text"@] + opt_arg(opt_view(p.selector)), opt_view(p.session_id)),
        ),
{
    let mut a = new_args("get");
    push_word(&mut a, "text");
    assert(strs(a@) =~= seq!["get"@, "text"@]);
    push_opt(&mut a, p.selector);
    extend_session(a, &p.session_id)
}

/// Read HTML: `get`, `html`, the selector when given, `--outer` when asked
/// for, then the session arguments.
pub fn get_html_args(p: GetHtmlParams) -> (r: Result<Vec<String>, ErrorData>)
    ensures
        args_outcome(
            r,
            with_session(
                seq!["get"@, "html"@] + opt_arg(opt_view(p.selector)) + flag_if(
                    p.outer == Some(true),
                    "--outer"@,
                ),
                opt_view(p.session_id),
            ),
        ),
{
    let mut a = new_args("get");
    push_word(&mut a, "html");
    assert(strs(a@) =~= seq!["get"@, "html"@]);
    push_opt(&mut a, p.selector);
    push_flag_if(&mut a, p.outer.unwrap_or(false), "--outer");
    extend_session(a, &p.session_id)
}

/// Take an accessibility snapshot: `snapshot`, then `-i`, `-c`, `-d` and the
/// depth, `-s` and the selector, `--json`, each when asked for, in this order,
/// then the session arguments.
pub fn snapshot_args(p: SnapshotParams) -> (r: Result<Vec<String>, ErrorData>)
    ensures
        args_outcome(
            r,
            with_session(
                seq!["snapshot"@] + flag_if(p.interactive == Some(true), "-i"@) + flag_if(
                    p.compact == Some(true),
                    "-c"@,
                ) + opt_flag_arg("-d"@, opt_decimal(opt_nat32(p.depth))) + opt_flag_arg(
                    "-s"@,
                    opt_view(p.selector),
                ) + flag_if(p.json == Some(true), "--json"@),
                opt_view(p.session_id),
            ),
        ),
{
    let mut a = new_args("snapshot");
    push_flag_if(&mut a, p.interactive.unwrap_or(false), "-i");
    push_flag_if(&mut a, p.compact.unwrap_or(false), "-c");
    push_opt_flag(&mut a, "-d", opt_u32_text(p.depth));
    push_opt_flag(&mut a, "-s", p.selector);
    push_flag_if(&mut a, p.json.unwrap_or(false), "--json");
    extend_session(a, &p.session_id)
}

/// Why an optional path is refused, if it is given and refused.
pub open spec fn opt_path_error(o: Option<Seq<char>>) -> Option<Seq<char>> {
    match o {
        Some(path) => file_path_error(path),
        None => None,
    }
}

/// Take a screenshot: the path, when given, is checked first; then
/// `screenshot`, the path when given, `--selector` and the selector, `--full`,
/// `--annotate`, each when asked for, then the session arguments.
pub fn screenshot_args(p: ScreenshotParams) -> (r: Result<Vec<String>, ErrorData>)
    ensures
        args_outcome(
            r,
            match opt_path_error(opt_view(p.path)) {
                Some(m) => Err(m),
                None => with_session(
                    seq!["screenshot"@] + opt_arg(opt_view(p.path)) + opt_flag_arg(
                        "--selector"@,
                        opt_view(p.selector),
                    ) + flag_if(p.full_page == Some(true), "--full"@) + flag_if(
                        p.annotate == Some(true),
                        "--annotate"@,
                    ),
                    opt_view(p.session_id),
                ),
            },
        ),
{
    match &p.path {
        Some(path) => {
            match validated_path_of(path) {
                Ok(()) => {},
                Err(e) => {
                    return Err(e);
                },
            }
        },
        None => {},
    }
    let mut a = new_args("screenshot");
    push_opt(&mut a, p.path);
    push_opt_flag(&mut a, "--selector", p.selector);
    push_flag_if(&mut a, p.full_page.unwrap_or(false), "--full");
    push_flag_if(&mut a, p.annotate.unwrap_or(false), "--annotate");
    extend_session(a, &p.session_id)
}

/// Create a session: `session`, `new`, then `--width` and `--height` with
/// their values when given. No session is selected and nothing is refused.
pub fn new_session_args(p: NewSessionParams) -> (r: Vec<String>)
    ensures
        strs(r@) == seq!["session"@, "new"@] + opt_flag_arg(
            "--width"@,
            opt_decimal(opt_nat32(p.width)),
        ) + opt_flag_arg("--height"@, opt_decimal(opt_nat32(p.height))),
{
    let mut a = new_args("session");
    push_word(&mut a, "new");
    assert(strs(a@) =~= seq!["session"@, "new"@]);
    push_opt_flag(&mut a, "--width", opt_u32_text(p.width));
    push_opt_flag(&mut a, "--height", opt_u32_text(p.height));
    a
}

/// Close one session: the identifier is checked; then `close`, `--session`
/// and the identifier.
pub fn close_session_args(p: CloseSessionParams) -> (r: Result<Vec<String>, ErrorData>)
    ensures
        args_outcome(
            r,
            match session_id_error(p.session_id@) {
                Some(m) => Err(m),
                None => Ok(seq!["close"@, "--session"@, p.session_id@]),
            },
        ),
{
    match validate_session_id(p.session_id.as_str()) {
        Ok(()) => {},
        Err(e) => {
            return Err(crate::protocol::invalid_params(e));
        },
    }
    let mut a = new_args("close");
    push_word(&mut a, "--session");
    push_string(&mut a, p.session_id);
    assert(strs(a@) =~= seq!["close"@, "--session"@, p.session_id@]);
    Ok(a)
}

/// The time, in seconds, that the command of a wait of `timeout` milliseconds
/// is given: the wait's whole seconds and ten more. Without a timeout there is
/// none, and the command gets the default time.
pub fn wait_executor_timeout(timeout: Option<u64>) -> (r: Option<u64>)
    ensures
        r == match timeout {
            Some(ms) => Some((ms / 1000 + 10) as u64),
            None => None::<u64>,
        },
{
    match timeout {
        Some(ms) => Some(ms / 1000 + 10),
        None => None,
    }
}

/// Wait for an element or a delay: `wait`, the selector, `--timeout` and the
/// milliseconds when given, `--state` and the state when given, then the
/// session arguments.
pub fn wait_args(p: WaitParams) -> (r: Result<Vec<String>, ErrorData>)
    ensures
        args_outcome(
            r,
            with_session(
                seq!["wait"@, p.selector@] + opt_flag_arg(
                    "--timeout"@,
                    opt_decimal(opt_nat64(p.timeout)),
                ) + opt_flag_arg(
                    "--state"@,
                    match p.state {
                        Some(s) => Some(wait_state_word(s)),
                        None => None,
                    },
                ),
                opt_view(p.session_id),
            ),
        ),
{
    let mut a = new_args("wait");
    push_string(&mut a, p.selector);
    assert(strs(a@) =~= seq!["wait"@, p.selector@]);
    push_opt_flag(&mut a, "--timeout", opt_u64_text(p.timeout));
    let state: Option<String> = match p.state {
        Some(s) => Some(String::from_str(wait_state_name(s))),
        None => None,
    };
    push_opt_flag(&mut a, "--state", state);
    extend_session(a, &p.session_id)
}

/// The arguments that name the URLs of a cookie query: `--` and the URLs when
/// a list is given, nothing otherwise.
pub open spec fn urls_tail(urls: Option<Vec<String>>) -> Seq<Seq<char>> {
    match urls {
        Some(u) => seq!["--"@] + strs(u@),
        None => seq![],
    }
}

/// Read cookies: `cookies`, `get`, `--json` when asked for, the session
/// arguments, then `--` and the URLs when a list is given.
pub fn get_cookies_args(p: CookieGetParams) -> (r: Result<Vec<String>, ErrorData>)
    ensures
        args_outcome(
            r,
            match session_args_spec(opt_view(p.session_id)) {
                Err(m) => Err(m),
                Ok(tail) => Ok(
                    seq!["cookies"@, "get"@] + flag_if(p.json == Some(true), "--json"@) + tail
                        + urls_tail(p.urls),
                ),
            },
        ),
{
    let mut a = new_args("cookies");
    push_word(&mut a, "get");
    assert(strs(a@) =~= seq!["cookies"@, "get"@]);
    push_flag_if(&mut a, p.json.unwrap_or(false), "--json");
    let mut a = match extend_session(a, &p.session_id) {
        Ok(a) => a,
        Err(e) => {
            return Err(e);
        },
    };
    let ghost before = strs(a@);
    match p.urls {
        Some(urls) => {
            push_word(&mut a, "--");
            push_all(&mut a, urls);
        },
        None => {},
    }
    assert(strs(a@) =~= before + urls_tail(p.urls));
    Ok(a)
}

/// Read captured network requests: `network`, `requests`, `--json` when asked
/// for, then the session arguments.
pub fn get_network_args(p: NetworkParams) -> (r: Result<Vec<String>, ErrorData>)
    ensures
        args_outcome(
            r,
            with_session(
                seq!["network"@, "requests"@] + flag_if(p.json == Some(true), "--json"@),
                opt_view(p.session_id),
            ),
        ),
{
    let mut a = new_args("network");
    push_word(&mut a, "requests");
    assert(strs(a@) =~= seq!["network"@, "requests"@]);
    push_flag_if(&mut a, p.json.unwrap_or(false), "--json");
    extend_session(a, &p.session_id)
}

/// Connect to a running browser: `connect` and the target. No session is
/// selected and nothing is refused.
pub fn connect_args(p: ConnectParams) -> (r: Vec<String>)
    ensures
        strs(r@) == seq!["connect"@, p.target@],
{
    let mut a = new_args("connect");
    push_string(&mut a, p.target);
    assert(strs(a@) =~= seq!["connect"@, p.target@]);
    a
}

} // verus!
