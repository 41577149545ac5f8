//! The parameters of each browser tool, as the client sends them.

use vstd::prelude::*;

verus! {

/// Parameters of the tools that take nothing but an optional session.
#[derive(Debug)]
pub struct SessionOnly {
    /// Browser session ID
    pub session_id: Option<String>,
}

/// Parameters of navigation.
#[derive(Debug)]
pub struct UrlParams {
    /// The URL to navigate to
    pub url: String,
    /// Browser session ID
    pub session_id: Option<String>,
}

/// Parameters of the tools that act on one element.
#[derive(Debug)]
pub struct SelectorParams {
    /// CSS selector, text, or @ref from snapshot
    pub selector: String,
    /// Browser session ID
    pub session_id: Option<String>,
}

/// Parameters of the tools that put a value into an element.
#[derive(Debug)]
pub struct SelectorValueParams {
    /// Selector for the element
    pub selector: String,
    /// Value to enter
    pub value: String,
    /// Browser session ID
    pub session_id: Option<String>,
}

/// Parameters of typing into an element.
#[derive(Debug)]
pub struct TypeTextParams {
    /// Selector for the input element
    pub selector: String,
    /// Text to type
    pub text: String,
    /// Browser session ID
    pub session_id: Option<String>,
}

/// Parameters of a key press.
#[derive(Debug)]
pub struct KeyParams {
    /// Key to press (e.g. 'Enter', 'Escape', 'Tab', 'Control+a')
    pub key: String,
    /// Browser session ID
    pub session_id: Option<String>,
}

/// Parameters of keyboard input that targets no element.
#[derive(Debug)]
pub struct KeyboardTypeParams {
    /// Text to type with real keystrokes
    pub text: String,
    /// Browser session ID
    pub session_id: Option<String>,
}

/// The direction of a scroll.
#[derive(Clone, Copy, Debug, PartialEq, Eq, Structural)]
pub enum ScrollDirection {
    Up,
    Down,
    Left,
    Right,
}

/// Parameters of a scroll.
#[derive(Debug)]
pub struct ScrollParams {
    /// Scroll direction
    pub direction: ScrollDirection,
    /// Scroll amount in pixels
    pub amount: Option<u32>,
    /// Browser session ID
    pub session_id: Option<String>,
}

/// Parameters of a drag from one element to another.
#[derive(Debug)]
pub struct DragParams {
    /// Selector for source element
    pub source: String,
    /// Selector for destination element
    pub destination: String,
    /// Browser session ID
    pub session_id: Option<String>,
}

/// Parameters of an upload.
#[derive(Debug)]
pub struct UploadParams {
    /// Selector for the file input element
    pub selector: String,
    /// File paths to upload
    pub files: Vec<String>,
    /// Browser session ID
    pub session_id: Option<String>,
}

/// Parameters of a download.
#[derive(Debug)]
pub struct DownloadParams {
    /// Selector for the element to click to trigger download
    pub selector: String,
    /// File path to save the download
    pub path: String,
    /// Browser session ID
    pub session_id: Option<String>,
}

/// Parameters of the tools that act on an element or the whole page.
#[derive(Debug)]
pub struct OptionalSelectorParams {
    /// Selector for the element (full page if not provided)
    pub selector: Option<String>,
    /// Browser session ID
    pub session_id: Option<String>,
}

/// Parameters of reading HTML.
#[derive(Debug)]
pub struct GetHtmlParams {
    /// Selector for the element (full page if not provided)
    pub selector: Option<String>,
    /// Get outer HTML instead of inner HTML
    pub outer: Option<bool>,
    /// Browser session ID
    pub session_id: Option<String>,
}

/// Parameters of reading an attribute.
#[derive(Debug)]
pub struct GetAttrParams {
    /// Selector for the element
    pub selector: String,
    /// Name of the attribute to get
    pub attribute: String,
    /// Browser session ID
    pub session_id: Option<String>,
}

/// Parameters of an accessibility snapshot.
#[derive(Debug)]
pub struct SnapshotParams {
    /// Only show interactive elements
    pub interactive: Option<bool>,
    /// Remove empty structural elements
    pub compact: Option<bool>,
    /// Limit tree depth
    pub depth: Option<u32>,
    /// Scope to a CSS selector
    pub selector: Option<String>,
    /// Return JSON output
    pub json: Option<bool>,
    /// Browser session ID
    pub session_id: Option<String>,
}

/// Parameters of a screenshot.
#[derive(Debug)]
pub struct ScreenshotParams {
    /// File path to save the screenshot
    pub path: Option<String>,
    /// Selector for element to screenshot
    pub selector: Option<String>,
    /// Capture the full scrollable page
    pub full_page: Option<bool>,
    /// Add numbered labels for vision models
    pub annotate: Option<bool>,
    /// Browser session ID
    pub session_id: Option<String>,
}

/// Parameters of PDF generation.
#[derive(Debug)]
pub struct PdfParams {
    /// File path to save the PDF
    pub path: String,
    /// Browser session ID
    pub session_id: Option<String>,
}

/// Parameters of a new session.
#[derive(Debug)]
pub struct NewSessionParams {
    /// Viewport width in pixels
    pub width: Option<u32>,
    /// Viewport height in pixels
    pub height: Option<u32>,
}

/// Parameters of closing one session.
#[derive(Debug)]
pub struct CloseSessionParams {
    /// Session ID to close
    pub session_id: String,
}

/// The element state that a wait expects.
#[derive(Clone, Copy, Debug, PartialEq, Eq, Structural)]
pub enum WaitState {
    Attached,
    Detached,
    Visible,
    Hidden,
}

/// Parameters of a wait.
#[derive(Debug)]
pub struct WaitParams {
    /// Selector to wait for, or milliseconds (e.g. '5000')
    pub selector: String,
    /// Maximum wait time in milliseconds
    pub timeout: Option<u64>,
    /// Element state to wait for
    pub state: Option<WaitState>,
    /// Browser session ID
    pub session_id: Option<String>,
}

/// Parameters of reading cookies.
#[derive(Debug)]
pub struct CookieGetParams {
    /// URLs to get cookies for
    pub urls: Option<Vec<String>>,
    /// Return JSON output
    pub json: Option<bool>,
    /// Browser session ID
    pub session_id: Option<String>,
}

/// Parameters of setting cookies; the cookies are held as the text of their JSON document.
#[derive(Debug)]
pub struct CookieSetParams {
    /// Cookies to set, as JSON text
    pub cookies: String,
    /// Browser session ID
    pub session_id: Option<String>,
}

/// Parameters of script evaluation.
#[derive(Debug)]
pub struct EvalParams {
    /// JavaScript code to execute
    pub script: String,
    /// Browser session ID
    pub session_id: Option<String>,
}

/// Parameters of connecting to a running browser.
#[derive(Debug)]
pub struct ConnectParams {
    /// CDP port number or WebSocket URL
    pub target: String,
}

/// Parameters of reading captured network requests.
#[derive(Debug)]
pub struct NetworkParams {
    /// Return JSON output
    pub json: Option<bool>,
    /// Browser session ID
    pub session_id: Option<String>,
}

} // verus!
