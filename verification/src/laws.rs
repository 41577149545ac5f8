//! Properties that hold across the library's functions.

use vstd::prelude::*;
use crate::args::with_session;
use crate::args::{args_outcome, flag_if, opt_arg, opt_flag_arg, opt_str_view, opt_view, strs};
use crate::protocol::{
    error_result, invalid_params_error, outcome_view, success_result, text_block, tool_result_spec,
};
use crate::params::{ScrollDirection, WaitState};
use rmcp::model::ErrorData;
use crate::output::{done_message, output_outcome, stream_text, lossy_text};
use crate::text::{decimal, digit_char, is_prefix_of, trim_end_spec, unicode_whitespace};
use crate::tools::{
    first_path_error, opt_decimal, opt_nat32, opt_nat64, opt_path_error, scroll_word, urls_tail,
    wait_state_word,
};
use crate::validate::{
    ascii_session_char, file_path_error, first_prefix_match, has_parent_segment, sensitive_prefixes,
    session_char_allowed, session_id_error,
};
use vstd::utf8::{encode_utf8, is_ascii_chars, is_ascii_chars_encode_utf8};

verus! {

/// A path that `validate_file_path` accepts is not empty, holds no `..`
/// component, and starts with none of the sensitive directories.
pub proof fn accepted_path_is_safe(p: Seq<char>)
    requires
        file_path_error(p) is None,
    ensures
        p.len() > 0,
        !has_parent_segment(p),
        forall|i: int|
            0 <= i < sensitive_prefixes().len() ==> !is_prefix_of(
                #[trigger] sensitive_prefixes()[i],
                p,
            ),
{
    no_match_means_no_prefix(p, sensitive_prefixes());
}

/// When no prefix of the list matches first, none matches at all.
proof fn no_match_means_no_prefix(p: Seq<char>, prefixes: Seq<Seq<char>>)
    requires
        first_prefix_match(p, prefixes) is None,
    ensures
        forall|i: int| 0 <= i < prefixes.len() ==> !is_prefix_of(#[trigger] prefixes[i], p),
    decreases prefixes.len(),
{
    if prefixes.len() > 0 {
        no_match_means_no_prefix(p, prefixes.drop_first());
        assert forall|i: int| 0 <= i < prefixes.len() implies !is_prefix_of(
            #[trigger] prefixes[i],
            p,
        ) by {
            if i > 0 {
                assert(prefixes[i] == prefixes.drop_first()[i - 1]);
            }
        }
    }
}

/// A session identifier that `validate_session_id` accepts is not empty, is at
/// most 128 bytes long in UTF-8, and holds only alphanumeric characters, `-`,
/// `_` and `.`; one that it refuses gives the refusal's message in place of
/// any argument list.
pub proof fn session_arguments_follow_validation(base: Seq<Seq<char>>, id: Seq<char>)
    ensures
        session_id_error(id) is None ==> {
            &&& id.len() > 0
            &&& encode_utf8(id).len() <= 128
            &&& forall|i: int| 0 <= i < id.len() ==> session_char_allowed(#[trigger] id[i])
            &&& with_session(base, Some(id)) == Ok::<Seq<Seq<char>>, Seq<char>>(
                base + seq!["--session"@, id],
            )
        },
        session_id_error(id) is Some ==> with_session(base, Some(id)) == Err::<
            Seq<Seq<char>>,
            Seq<char>,
        >(session_id_error(id)->Some_0),
        with_session(base, None) == Ok::<Seq<Seq<char>>, Seq<char>>(base),
{
    assert(base + seq![] =~= base);
}

/// An upload that is not refused names only paths that `validate_file_path`
/// accepts; one that names a refused path is refused.
pub proof fn accepted_upload_paths_are_valid(paths: Seq<Seq<char>>)
    ensures
        first_path_error(paths) is None <==> forall|i: int|
            0 <= i < paths.len() ==> (#[trigger] file_path_error(paths[i])) is None,
    decreases paths.len(),
{
    if paths.len() > 0 {
        accepted_upload_paths_are_valid(paths.drop_first());
        if first_path_error(paths) is None {
            assert forall|i: int| 0 <= i < paths.len() implies (#[trigger] file_path_error(
                paths[i],
            )) is None by {
                if i > 0 {
                    assert(paths[i] == paths.drop_first()[i - 1]);
                }
            }
        } else if file_path_error(paths[0]) is None {
            let j = choose|j: int|
                0 <= j < paths.drop_first().len() && (#[trigger] file_path_error(
                    paths.drop_first()[j],
                )) is Some;
            assert(paths[j + 1] == paths.drop_first()[j]);
        }
    }
}

/// The command of a wait outlives the wait: it is given more seconds than the
/// wait's milliseconds amount to.
pub proof fn wait_command_outlasts_wait(ms: u64)
    ensures
        ((ms / 1000 + 10) as int) * 1000 > ms,
{
    assert(((ms / 1000 + 10) as int) * 1000 > ms) by (nonlinear_arith);
}

/// A successful command always answers with some text, and a failed one never
/// answers successfully.
pub proof fn success_has_text(stdout: Seq<u8>, stderr: Seq<u8>)
    ensures
        output_outcome(true, stdout, stderr) is Ok,
        output_outcome(true, stdout, stderr)->Ok_0.len() > 0,
        output_outcome(false, stdout, stderr) is Err,
{
    reveal_strlit("Command executed successfully");
    assert(done_message().len() > 0);
}

/// Removing trailing whitespace keeps a prefix, leaves no whitespace at the
/// end, removes only whitespace, and changes nothing a second time.
pub proof fn trim_end_properties(s: Seq<char>)
    ensures
        is_prefix_of(trim_end_spec(s), s),
        trim_end_spec(s).len() > 0 ==> !unicode_whitespace(trim_end_spec(s).last()),
        forall|i: int|
            trim_end_spec(s).len() <= i < s.len() ==> unicode_whitespace(#[trigger] s[i]),
        trim_end_spec(trim_end_spec(s)) == trim_end_spec(s),
    decreases s.len(),
{
    if s.len() > 0 && unicode_whitespace(s.last()) {
        trim_end_properties(s.drop_last());
        let t = trim_end_spec(s.drop_last());
        assert(s.subrange(0, t.len() as int) =~= s.drop_last().subrange(0, t.len() as int));
        assert forall|i: int| t.len() <= i < s.len() implies unicode_whitespace(#[trigger] s[i]) by {
            if i < s.len() - 1 {
                assert(s[i] == s.drop_last()[i]);
            }
        }
    } else {
        assert(s.subrange(0, s.len() as int) =~= s);
    }
}

/// A number's decimal text is made of digits only, and starts with `0` only
/// when the number is zero.
pub proof fn decimal_is_digits(n: nat)
    ensures
        decimal(n).len() > 0,
        forall|i: int| 0 <= i < decimal(n).len() ==> '0' <= #[trigger] decimal(n)[i] <= '9',
        decimal(n)[0] == '0' ==> n == 0,
    decreases n,
{
    if n >= 10 {
        decimal_is_digits(n / 10);
        assert forall|i: int| 0 <= i < decimal(n).len() implies '0' <= #[trigger] decimal(n)[i]
            <= '9' by {
            if i < decimal(n / 10).len() {
                assert(decimal(n)[i] == decimal(n / 10)[i]);
            }
        }
        assert(decimal(n)[0] == decimal(n / 10)[0]);
    }
}


/// An ASCII session identifier is accepted exactly when it is not empty, holds
/// at most 128 characters, and each of them is a letter, a digit, `-`, `_` or
/// `.`.
pub proof fn ascii_session_id_rule(id: Seq<char>)
    requires
        is_ascii_chars(id),
    ensures
        session_id_error(id) is None <==> {
            &&& id.len() > 0
            &&& id.len() <= 128
            &&& forall|i: int| 0 <= i < id.len() ==> ascii_session_char(#[trigger] id[i])
        },
{
    is_ascii_chars_encode_utf8(id);
    assert forall|i: int| 0 <= i < id.len() implies (session_char_allowed(#[trigger] id[i])
        <==> ascii_session_char(id[i])) by {
        assert('\0' <= id[i] <= '\u{7f}');
    }
}


/// `p` begins with the text `d`.
pub open spec fn begins_with(p: Seq<char>, d: Seq<char>) -> bool {
    d.len() <= p.len() && forall|k: int| 0 <= k < d.len() ==> p[k] == #[trigger] d[k]
}

/// The characters `..` stand at `i` in `p` with a `/` or the end of `p` on
/// either side.
pub open spec fn dot_dot_at(p: Seq<char>, i: int) -> bool {
    0 <= i && i + 2 <= p.len() && p[i] == '.' && p[i + 1] == '.' && (i == 0 || p[i - 1] == '/')
        && (i + 2 == p.len() || p[i + 2] == '/')
}

/// `p` begins with one of the directories `/etc`, `/usr`, `/boot`, `/sys`,
/// `/proc`, `/dev`, `/sbin`, `/lib`.
pub open spec fn under_blocked_dir(p: Seq<char>) -> bool {
    ||| begins_with(p, "/etc"@)
    ||| begins_with(p, "/usr"@)
    ||| begins_with(p, "/boot"@)
    ||| begins_with(p, "/sys"@)
    ||| begins_with(p, "/proc"@)
    ||| begins_with(p, "/dev"@)
    ||| begins_with(p, "/sbin"@)
    ||| begins_with(p, "/lib"@)
}

/// Two prefixes of one sequence agree where both are defined.
proof fn prefixes_agree(p: Seq<char>, a: Seq<char>, b: Seq<char>, k: int)
    requires
        is_prefix_of(a, p),
        is_prefix_of(b, p),
        0 <= k < a.len(),
        k < b.len(),
    ensures
        a[k] == b[k],
{
    assert(a[k] == p.subrange(0, a.len() as int)[k]);
    assert(b[k] == p.subrange(0, b.len() as int)[k]);
}

/// `begins_with` is `is_prefix_of`.
proof fn begins_with_is_prefix(p: Seq<char>, d: Seq<char>)
    ensures
        begins_with(p, d) <==> is_prefix_of(d, p),
{
    if begins_with(p, d) {
        assert(p.subrange(0, d.len() as int) =~= d);
    }
    if is_prefix_of(d, p) {
        assert forall|k: int| 0 <= k < d.len() implies p[k] == #[trigger] d[k] by {
            assert(p.subrange(0, d.len() as int)[k] == p[k]);
        }
    }
}

/// The first match in a list is the element at the first index whose entry
/// is a prefix.
proof fn first_match_at(p: Seq<char>, prefixes: Seq<Seq<char>>, i: int)
    requires
        0 <= i < prefixes.len(),
        is_prefix_of(prefixes[i], p),
        forall|j: int| 0 <= j < i ==> !is_prefix_of(#[trigger] prefixes[j], p),
    ensures
        first_prefix_match(p, prefixes) == Some(prefixes[i]),
    decreases i,
{
    if i > 0 {
        assert(!is_prefix_of(prefixes[0], p));
        assert forall|j: int| 0 <= j < i - 1 implies !is_prefix_of(
            #[trigger] prefixes.drop_first()[j],
            p,
        ) by {
            assert(prefixes.drop_first()[j] == prefixes[j + 1]);
        }
        first_match_at(p, prefixes.drop_first(), i - 1);
    }
}

/// With no entry a prefix, nothing matches.
proof fn no_prefix_no_match(p: Seq<char>, prefixes: Seq<Seq<char>>)
    requires
        forall|j: int| 0 <= j < prefixes.len() ==> !is_prefix_of(#[trigger] prefixes[j], p),
    ensures
        first_prefix_match(p, prefixes) is None,
    decreases prefixes.len(),
{
    if prefixes.len() > 0 {
        assert(!is_prefix_of(prefixes[0], p));
        assert forall|j: int| 0 <= j < prefixes.len() - 1 implies !is_prefix_of(
            #[trigger] prefixes.drop_first()[j],
            p,
        ) by {
            assert(prefixes.drop_first()[j] == prefixes[j + 1]);
        }
        no_prefix_no_match(p, prefixes.drop_first());
    }
}

/// The rule of `validate_file_path`, stated over the text of the path: an
/// empty path, a path with a `..` component and a path that begins with one of
/// `/etc`, `/usr`, `/boot`, `/sys`, `/proc`, `/dev`, `/sbin`, `/lib` are
/// refused, each with its message; every other path is accepted.
pub proof fn file_path_rule(p: Seq<char>)
    ensures
        p.len() == 0 ==> file_path_error(p) == Some("File path cannot be empty"@),
        p.len() > 0 && (exists|i: int| dot_dot_at(p, i)) ==> file_path_error(p) == Some(
            "Invalid file path '"@ + p + "': path traversal ('..') is not allowed"@,
        ),
        p.len() > 0 && !(exists|i: int| dot_dot_at(p, i)) && !under_blocked_dir(p)
            ==> file_path_error(p) is None,
        p.len() > 0 && !(exists|i: int| dot_dot_at(p, i)) && under_blocked_dir(p) ==> exists|
            d: Seq<char>,
        |
            begins_with(p, d) && (d == "/etc"@ || d == "/usr"@ || d == "/boot"@ || d == "/sys"@
                || d == "/proc"@ || d == "/dev"@ || d == "/sbin"@ || d == "/lib"@)
                && file_path_error(p) == Some(
                "Invalid file path '"@ + p + "': writing to '"@ + d + "' is not allowed"@,
            ),
{
    reveal_strlit("/etc");
    reveal_strlit("/usr");
    reveal_strlit("/boot");
    reveal_strlit("/sys");
    reveal_strlit("/proc");
    reveal_strlit("/dev");
    reveal_strlit("/sbin");
    reveal_strlit("/lib");
    assert((exists|i: int| dot_dot_at(p, i)) <==> has_parent_segment(p)) by {
        if exists|i: int| dot_dot_at(p, i) {
            let i = choose|i: int| dot_dot_at(p, i);
            assert(crate::validate::parent_segment_at(p, i));
        }
        if has_parent_segment(p) {
            let i = choose|i: int| crate::validate::parent_segment_at(p, i);
            assert(dot_dot_at(p, i));
        }
    }
    let l = sensitive_prefixes();
    assert forall|j: int| 0 <= j < l.len() implies (begins_with(p, #[trigger] l[j])
        <==> is_prefix_of(l[j], p)) by {
        begins_with_is_prefix(p, l[j]);
    }
    if !under_blocked_dir(p) {
        assert forall|j: int| 0 <= j < l.len() implies !is_prefix_of(#[trigger] l[j], p) by {
            assert(!begins_with(p, l[j]));
        }
        no_prefix_no_match(p, l);
    } else if p.len() > 0 && !has_parent_segment(p) {
        let i = choose|i: int| 0 <= i < l.len() && begins_with(p, #[trigger] l[i]);
        assert forall|j: int| 0 <= j < i implies !is_prefix_of(#[trigger] l[j], p) by {
            if is_prefix_of(l[j], p) {
                prefixes_agree(p, l[i], l[j], 1);
                prefixes_agree(p, l[i], l[j], 2);
            }
        }
        first_match_at(p, l, i);
        assert(begins_with(p, l[i]));
    }
}


/// The text of an output stream is its decoded text with the trailing
/// whitespace removed, and nothing else: every character before the cut is
/// kept in place, every character after it is whitespace, and the kept text
/// does not end in whitespace.
pub proof fn stream_text_keeps_all_but_trailing_whitespace(bytes: Seq<u8>)
    ensures
        stream_text(bytes).len() <= lossy_text(bytes).len(),
        forall|i: int|
            0 <= i < stream_text(bytes).len() ==> #[trigger] stream_text(bytes)[i] == lossy_text(
                bytes,
            )[i],
        forall|i: int|
            stream_text(bytes).len() <= i < lossy_text(bytes).len() ==> unicode_whitespace(
                #[trigger] lossy_text(bytes)[i],
            ),
        stream_text(bytes).len() > 0 ==> !unicode_whitespace(
            stream_text(bytes)[stream_text(bytes).len() - 1],
        ),
{
    let raw = lossy_text(bytes);
    trim_end_properties(raw);
    let t = trim_end_spec(raw);
    assert forall|i: int| 0 <= i < t.len() implies #[trigger] t[i] == raw[i] by {
        assert(raw.subrange(0, t.len() as int)[i] == raw[i]);
    }
}

/// A character that may stand in a session identifier, stated directly: an
/// ASCII letter or digit, `-`, `_`, `.`, or a character beyond ASCII that is
/// alphanumeric.
pub open spec fn id_char_ok(c: char) -> bool {
    ||| ('0' <= c && c <= '9')
    ||| ('a' <= c && c <= 'z')
    ||| ('A' <= c && c <= 'Z')
    ||| c == '-'
    ||| c == '_'
    ||| c == '.'
    ||| ((c as u32) >= 128 && crate::validate::unicode_alphanumeric(c))
}

/// The rule of `validate_session_id` for every identifier: an empty one and
/// one over 128 bytes are refused with their messages; otherwise it is
/// accepted exactly when every character is allowed, and refused with the
/// message that names it when not.
pub proof fn session_id_rule(id: Seq<char>)
    ensures
        id.len() == 0 ==> session_id_error(id) == Some("Session ID cannot be empty"@),
        id.len() > 0 && encode_utf8(id).len() > 128 ==> session_id_error(id) == Some(
            "Session ID too long (max 128 chars)"@,
        ),
        id.len() > 0 && encode_utf8(id).len() <= 128 && (forall|i: int|
            0 <= i < id.len() ==> id_char_ok(#[trigger] id[i])) ==> session_id_error(id) is None,
        id.len() > 0 && encode_utf8(id).len() <= 128 && (exists|i: int|
            0 <= i < id.len() && !id_char_ok(#[trigger] id[i])) ==> session_id_error(id) == Some(
            "Invalid session ID '"@ + id
                + "': only alphanumeric, hyphens, underscores, and dots allowed"@,
        ),
{
    assert forall|i: int| 0 <= i < id.len() implies (session_char_allowed(#[trigger] id[i])
        <==> id_char_ok(id[i])) by {}
}

/// The arguments of a list of elements are the texts of the elements, one for
/// one and in order.
pub proof fn strs_one_for_one(v: Seq<String>)
    ensures
        strs(v).len() == v.len(),
        forall|i: int| 0 <= i < v.len() ==> #[trigger] strs(v)[i] == v[i]@,
{
}

/// The URLs of a cookie query are all passed, in order, after `--`; without a
/// list nothing is passed.
pub proof fn cookie_urls_all_passed(urls: Option<Vec<String>>)
    ensures
        urls matches Some(u) ==> {
            &&& urls_tail(urls).len() == u@.len() + 1
            &&& urls_tail(urls)[0] == "--"@
            &&& forall|i: int| 0 <= i < u@.len() ==> #[trigger] urls_tail(urls)[i + 1] == u@[i]@
        },
        urls is None ==> urls_tail(urls).len() == 0,
{
}

/// The path of a screenshot is refused exactly when `validate_file_path`
/// refuses it, with the same message; without a path nothing is refused.
pub proof fn screenshot_path_rule(path: Option<Seq<char>>)
    ensures
        path matches Some(p) ==> opt_path_error(path) == file_path_error(p),
        path is None ==> opt_path_error(path) is None,
{
}


/// An upload that names a refused path is refused with the message of the
/// first refused path in the list.
pub proof fn upload_refusal_names_first_refused_path(paths: Seq<Seq<char>>, k: int)
    requires
        0 <= k < paths.len(),
        file_path_error(paths[k]) is Some,
        forall|j: int| 0 <= j < k ==> (#[trigger] file_path_error(paths[j])) is None,
    ensures
        first_path_error(paths) == file_path_error(paths[k]),
    decreases k,
{
    if k > 0 {
        assert forall|j: int| 0 <= j < k - 1 implies (#[trigger] file_path_error(
            paths.drop_first()[j],
        )) is None by {
            assert(paths.drop_first()[j] == paths[j + 1]);
        }
        assert(file_path_error(paths[0]) is None);
        upload_refusal_names_first_refused_path(paths.drop_first(), k - 1);
    }
}

/// The value of a text of decimal digits, most significant first (the digit
/// `0` is character 48).
pub open spec fn digits_value(s: Seq<char>) -> int
    decreases s.len(),
{
    if s.len() == 0 {
        0
    } else {
        digits_value(s.drop_last()) * 10 + (s.last() as int - 48)
    }
}

/// Reading a number's decimal text back gives the number.
pub proof fn decimal_reads_back(n: nat)
    ensures
        digits_value(decimal(n)) == n,
    decreases n,
{
    let d = n % 10;
    assert(digit_char(d) as int == 48 + d);
    if n >= 10 {
        decimal_reads_back(n / 10);
        assert(decimal(n).drop_last() =~= decimal(n / 10));
        assert(decimal(n).last() == digit_char(d));
        assert(digits_value(decimal(n)) == digits_value(decimal(n / 10)) * 10 + d);
        assert((n / 10) * 10 + n % 10 == n) by (nonlinear_arith);
        assert(digits_value(decimal(n)) == n);
    } else {
        assert(decimal(n) =~= seq![digit_char(n)]);
        assert(decimal(n).drop_last() =~= Seq::<char>::empty());
        assert(digits_value(decimal(n).drop_last()) == 0);
        assert(d == n);
        assert(digits_value(decimal(n)) == d);
    }
}

/// How the optional parts of an argument list are written: a flag that is asked
/// for stands alone, a value stands alone, a flag with a value stands before
/// it; what is absent contributes nothing. Numbers are written in decimal.
pub proof fn optional_argument_forms(f: Seq<char>, x: Seq<char>, n: u32, m: u64)
    ensures
        flag_if(true, f) == seq![f],
        flag_if(false, f).len() == 0,
        opt_arg(Some(x)) == seq![x],
        opt_arg(None).len() == 0,
        opt_flag_arg(f, Some(x)) == seq![f, x],
        opt_flag_arg(f, None).len() == 0,
        opt_decimal(opt_nat32(Some(n))) == Some(decimal(n as nat)),
        opt_decimal(opt_nat32(None)) is None,
        opt_decimal(opt_nat64(Some(m))) == Some(decimal(m as nat)),
        opt_decimal(opt_nat64(None)) is None,
{
}

/// The views of optional strings keep the string's text, or its absence.
pub proof fn optional_views(o: Option<String>, b: Option<&str>)
    ensures
        o matches Some(s) ==> opt_view(o) == Some(s@),
        o is None ==> opt_view(o) is None,
        b matches Some(s) ==> opt_str_view(b) == Some(s@),
        b is None ==> opt_str_view(b) is None,
{
}

/// A tool's answer matches what is expected only when it gives exactly the
/// expected arguments, or exactly the invalid-parameters error that carries
/// the expected message.
pub proof fn argument_outcomes_are_exact(
    r: Result<Vec<String>, ErrorData>,
    expected: Result<Seq<Seq<char>>, Seq<char>>,
)
    requires
        args_outcome(r, expected),
    ensures
        expected matches Ok(a) ==> r matches Ok(v) && strs(v@) == a,
        expected matches Err(m) ==> r == Err::<Vec<String>, ErrorData>(invalid_params_error(m)),
{
}

/// The answer to a completed command is a successful result holding its text
/// as one block; to a failed command, an error result holding its text.
pub proof fn tool_result_rule(text: Seq<char>, o: Result<String, String>)
    ensures
        tool_result_spec(Ok(text)) == success_result(seq![text_block(text)]),
        tool_result_spec(Err(text)) == error_result(seq![text_block(text)]),
        o matches Ok(t) ==> outcome_view(o) == Ok::<Seq<char>, Seq<char>>(t@),
        o matches Err(e) ==> outcome_view(o) == Err::<Seq<char>, Seq<char>>(e@),
{
}

/// A successful command answers with its output text, or with "Command
/// executed successfully" when that is empty; a failed one answers with its
/// error text, or with its output text when the error text is empty.
pub proof fn command_outcome_rule(stdout: Seq<u8>, stderr: Seq<u8>)
    ensures
        stream_text(stdout).len() == 0 ==> output_outcome(true, stdout, stderr) == Ok::<
            Seq<char>,
            Seq<char>,
        >("Command executed successfully"@),
        stream_text(stdout).len() > 0 ==> output_outcome(true, stdout, stderr) == Ok::<
            Seq<char>,
            Seq<char>,
        >(stream_text(stdout)),
        stream_text(stderr).len() == 0 ==> output_outcome(false, stdout, stderr) == Err::<
            Seq<char>,
            Seq<char>,
        >(stream_text(stdout)),
        stream_text(stderr).len() > 0 ==> output_outcome(false, stdout, stderr) == Err::<
            Seq<char>,
            Seq<char>,
        >(stream_text(stderr)),
{
}

/// The words that name scroll directions and element states on the command
/// line are their lowercase names.
pub proof fn command_words()
    ensures
        scroll_word(ScrollDirection::Up) == "up"@,
        scroll_word(ScrollDirection::Down) == "down"@,
        scroll_word(ScrollDirection::Left) == "left"@,
        scroll_word(ScrollDirection::Right) == "right"@,
        wait_state_word(WaitState::Attached) == "attached"@,
        wait_state_word(WaitState::Detached) == "detached"@,
        wait_state_word(WaitState::Visible) == "visible"@,
        wait_state_word(WaitState::Hidden) == "hidden"@,
{
}

} // verus!
