//! Checks on the values that the server hands to the command line: session
//! identifiers and file paths.

use vstd::prelude::*;
use vstd::utf8::{encode_utf8, is_ascii_chars, is_ascii_chars_encode_utf8};
use crate::text::{chars_of, is_prefix_of, starts_with};

verus! {

/// What `char::is_alphanumeric` returns for `c`: whether `c` is alphabetic or
/// numeric in the Unicode sense.
pub uninterp spec fn unicode_alphanumeric(c: char) -> bool;

/// The ASCII letters and digits.
pub open spec fn ascii_alphanumeric(c: char) -> bool {
    ('0' <= c && c <= '9') || ('a' <= c && c <= 'z') || ('A' <= c && c <= 'Z')
}

/// Calls `char::is_alphanumeric`. Its result is named `unicode_alphanumeric`;
/// among ASCII characters exactly the letters and digits are alphabetic or
/// numeric. Nothing is stated of characters beyond ASCII.
#[verifier::external_body]
fn is_alphanumeric(c: char) -> (b: bool)
    ensures
        b == unicode_alphanumeric(c),
        (c as u32) < 128 ==> (b <==> ascii_alphanumeric(c)),
{
    c.is_alphanumeric()
}

/// The longest session identifier accepted, in bytes of its UTF-8 encoding.
pub const MAX_SESSION_ID_BYTES: usize = 128;

/// An ASCII character that may stand in a session identifier.
pub open spec fn ascii_session_char(c: char) -> bool {
    ascii_alphanumeric(c) || c == '-' || c == '_' || c == '.'
}

/// A character that may stand in a session identifier: in ASCII a letter, a
/// digit, `-`, `_` or `.`; beyond ASCII an alphanumeric character.
pub open spec fn session_char_allowed(c: char) -> bool {
    if (c as u32) < 128 {
        ascii_session_char(c)
    } else {
        unicode_alphanumeric(c)
    }
}

/// The message for an identifier holding a character that is not allowed.
pub open spec fn invalid_session_message(id: Seq<char>) -> Seq<char> {
    "Invalid session ID '"@ + id
        + "': only alphanumeric, hyphens, underscores, and dots allowed"@
}

/// Why `id` is refused as a session identifier, or `None` when it is accepted.
/// The checks come in this order: empty, longer than 128 bytes, a character
/// other than an alphanumeric one, `-`, `_` or `.`.
pub open spec fn session_id_error(id: Seq<char>) -> Option<Seq<char>> {
    if id.len() == 0 {
        Some("Session ID cannot be empty"@)
    } else if encode_utf8(id).len() > 128 {
        Some("Session ID too long (max 128 chars)"@)
    } else if exists|i: int| 0 <= i < id.len() && !session_char_allowed(#[trigger] id[i]) {
        Some(invalid_session_message(id))
    } else {
        None
    }
}

/// Checks a session identifier before it is handed to the command line as the
/// value of `--session`.
pub fn validate_session_id(id: &str) -> (r: Result<(), String>)
    ensures
        match session_id_error(id@) {
            None => r is Ok,
            Some(m) => r is Err && r->Err_0@ == m,
        },
        r is Ok ==> forall|i: int|
            0 <= i < id@.len() && (#[trigger] id@[i] as u32) < 128 ==> ascii_session_char(id@[i]),
        is_ascii_chars(id@) ==> (r is Ok <==> {
            &&& id@.len() > 0
            &&& id@.len() <= 128
            &&& forall|i: int| 0 <= i < id@.len() ==> ascii_session_char(#[trigger] id@[i])
        }),
{
    proof {
        if is_ascii_chars(id@) {
            is_ascii_chars_encode_utf8(id@);
        }
    }
    if id.is_empty() {
        return Err(String::from_str("Session ID cannot be empty"));
    }
    if id.as_bytes().len() > MAX_SESSION_ID_BYTES {
        return Err(String::from_str("Session ID too long (max 128 chars)"));
    }
    let cs = chars_of(id);
    let mut i: usize = 0;
    while i < cs.len()
        invariant
            cs@ == id@,
            id@.len() > 0,
            encode_utf8(id@).len() <= 128,
            i <= cs.len(),
            forall|j: int| 0 <= j < i ==> session_char_allowed(#[trigger] cs@[j]),
            forall|j: int|
                0 <= j < i && (#[trigger] cs@[j] as u32) < 128 ==> (unicode_alphanumeric(cs@[j])
                    <==> ascii_alphanumeric(cs@[j])),
        decreases cs.len() - i,
    {
        let c = cs[i];
        if !(is_alphanumeric(c) || c == '-' || c == '_' || c == '.') {
            let mut m = String::from_str("Invalid session ID '");
            m.append(id);
            m.append("': only alphanumeric, hyphens, underscores, and dots allowed");
            return Err(m);
        }
        i = i + 1;
    }
    Ok(())
}


/// Some segment of `p`, with `/` as the only separator as on Unix, is exactly
/// `..`: the path holds a parent-directory component in the sense of Unix path
/// components.
pub open spec fn has_parent_segment(p: Seq<char>) -> bool {
    exists|i: int| #[trigger] parent_segment_at(p, i)
}

/// The characters `..` stand at `i` in `p` and form a whole segment.
pub open spec fn parent_segment_at(p: Seq<char>, i: int) -> bool {
    &&& 0 <= i
    &&& i + 2 <= p.len()
    &&& p[i] == '.'
    &&& p[i + 1] == '.'
    &&& (i == 0 || p[i - 1] == '/')
    &&& (i + 2 == p.len() || p[i + 2] == '/')
}

/// Whether `path` holds a `..` component.
pub fn has_parent_component(path: &str) -> (b: bool)
    ensures
        b == has_parent_segment(path@),
{
    let cs = chars_of(path);
    let n = cs.len();
    let mut i: usize = 0;
    while i < n && n - i >= 2
        invariant
            cs@ == path@,
            n == cs.len(),
            i <= n,
            forall|j: int| 0 <= j < i ==> !parent_segment_at(path@, j),
        decreases n - i,
    {
        if cs[i] == '.' && cs[i + 1] == '.' && (i == 0 || cs[i - 1] == '/') && (i + 2 == n
            || cs[i + 2] == '/') {
            assert(parent_segment_at(path@, i as int));
            return true;
        }
        i = i + 1;
    }
    assert forall|j: int| !parent_segment_at(path@, j) by {
        if 0 <= j && j < i {
        }
    }
    false
}

/// The directories under which no file may be written, in the order in which
/// they are checked.
pub open spec fn sensitive_prefixes() -> Seq<Seq<char>> {
    seq!["/etc"@, "/usr"@, "/boot"@, "/sys"@, "/proc"@, "/dev"@, "/sbin"@, "/lib"@]
}

/// The number of sensitive directories.
pub const SENSITIVE_PREFIX_COUNT: usize = 8;

/// The `i`-th sensitive directory.
pub fn sensitive_prefix(i: usize) -> (s: &'static str)
    requires
        i < SENSITIVE_PREFIX_COUNT,
    ensures
        s@ == sensitive_prefixes()[i as int],
{
    match i {
        0 => "/etc",
        1 => "/usr",
        2 => "/boot",
        3 => "/sys",
        4 => "/proc",
        5 => "/dev",
        6 => "/sbin",
        _ => "/lib",
    }
}

/// The first of `prefixes` with which `p` starts, if any.
pub open spec fn first_prefix_match(p: Seq<char>, prefixes: Seq<Seq<char>>) -> Option<Seq<char>>
    decreases prefixes.len(),
{
    if prefixes.len() == 0 {
        None
    } else if is_prefix_of(prefixes[0], p) {
        Some(prefixes[0])
    } else {
        first_prefix_match(p, prefixes.drop_first())
    }
}

/// The message for a path with a `..` component.
pub open spec fn traversal_message(p: Seq<char>) -> Seq<char> {
    "Invalid file path '"@ + p + "': path traversal ('..') is not allowed"@
}

/// The message for a path under a sensitive directory.
pub open spec fn sensitive_message(p: Seq<char>, prefix: Seq<char>) -> Seq<char> {
    "Invalid file path '"@ + p + "': writing to '"@ + prefix + "' is not allowed"@
}

/// Why `p` is refused as a file path, or `None` when it is accepted. The checks
/// come in this order: empty, a `..` component, a sensitive directory as a
/// textual prefix (so `/etcetera` is refused as well).
pub open spec fn file_path_error(p: Seq<char>) -> Option<Seq<char>> {
    if p.len() == 0 {
        Some("File path cannot be empty"@)
    } else if has_parent_segment(p) {
        Some(traversal_message(p))
    } else {
        match first_prefix_match(p, sensitive_prefixes()) {
            Some(prefix) => Some(sensitive_message(p, prefix)),
            None => None,
        }
    }
}

/// Checks a path that the browser is to read a file from or write a file to.
pub fn validate_file_path(path: &str) -> (r: Result<(), String>)
    ensures
        match file_path_error(path@) {
            None => r is Ok,
            Some(m) => r is Err && r->Err_0@ == m,
        },
{
    if path.is_empty() {
        return Err(String::from_str("File path cannot be empty"));
    }
    if has_parent_component(path) {
        let mut m = String::from_str("Invalid file path '");
        m.append(path);
        m.append("': path traversal ('..') is not allowed");
        return Err(m);
    }
    let mut i: usize = 0;
    assert(sensitive_prefixes().skip(0) =~= sensitive_prefixes());
    while i < SENSITIVE_PREFIX_COUNT
        invariant
            i <= SENSITIVE_PREFIX_COUNT,
            path@.len() > 0,
            !has_parent_segment(path@),
            first_prefix_match(path@, sensitive_prefixes()) == first_prefix_match(
                path@,
                sensitive_prefixes().skip(i as int),
            ),
        decreases SENSITIVE_PREFIX_COUNT - i,
    {
        let prefix = sensitive_prefix(i);
        assert(sensitive_prefixes().skip(i as int).drop_first() =~= sensitive_prefixes().skip(
            i + 1,
        ));
        if starts_with(path, prefix) {
            let mut m = String::from_str("Invalid file path '");
            m.append(path);
            m.append("': writing to '");
            m.append(prefix);
            m.append("' is not allowed");
            return Err(m);
        }
        i = i + 1;
    }
    assert(sensitive_prefixes().skip(8) =~= Seq::<Seq<char>>::empty());
    Ok(())
}

} // verus!
