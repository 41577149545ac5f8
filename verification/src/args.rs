//! Command-line argument lists: their model as sequences of character
//! sequences, the session arguments that every session-aware tool appends, and
//! the helpers that grow an argument list.

use vstd::prelude::*;
use rmcp::model::ErrorData;
use crate::protocol::{invalid_params, invalid_params_error};
use crate::validate::{file_path_error, session_id_error, validate_file_path, validate_session_id};

verus! {

/// The model of an argument list: the text of each argument.
pub open spec fn strs(v: Seq<String>) -> Seq<Seq<char>> {
    v.map_values(|s: String| s@)
}

/// The text of an optional argument.
pub open spec fn opt_view(o: Option<String>) -> Option<Seq<char>> {
    match o {
        Some(s) => Some(s@),
        None => None,
    }
}

/// The text of an optional borrowed argument.
pub open spec fn opt_str_view(o: Option<&str>) -> Option<Seq<char>> {
    match o {
        Some(s) => Some(s@),
        None => None,
    }
}

/// `flag` alone when `cond` holds, nothing otherwise.
pub open spec fn flag_if(cond: bool, flag: Seq<char>) -> Seq<Seq<char>> {
    if cond {
        seq![flag]
    } else {
        seq![]
    }
}

/// The value alone when there is one, nothing otherwise.
pub open spec fn opt_arg(o: Option<Seq<char>>) -> Seq<Seq<char>> {
    match o {
        Some(x) => seq![x],
        None => seq![],
    }
}

/// `flag` followed by the value when there is one, nothing otherwise.
pub open spec fn opt_flag_arg(flag: Seq<char>, o: Option<Seq<char>>) -> Seq<Seq<char>> {
    match o {
        Some(x) => seq![flag, x],
        None => seq![],
    }
}

/// The arguments that select a browser session: none without an identifier,
/// `--session` and the identifier when it is accepted, and the refusal's
/// message when it is not.
pub open spec fn session_args_spec(session_id: Option<Seq<char>>) -> Result<
    Seq<Seq<char>>,
    Seq<char>,
> {
    match session_id {
        None => Ok(seq![]),
        Some(id) => match session_id_error(id) {
            Some(m) => Err(m),
            None => Ok(seq!["--session"@, id]),
        },
    }
}

/// `base` followed by the session arguments, or the session refusal.
pub open spec fn with_session(base: Seq<Seq<char>>, session_id: Option<Seq<char>>) -> Result<
    Seq<Seq<char>>,
    Seq<char>,
> {
    match session_args_spec(session_id) {
        Ok(tail) => Ok(base + tail),
        Err(m) => Err(m),
    }
}

/// `r` is what `expected` describes: the arguments, or the invalid-parameters
/// error that carries the message.
pub open spec fn args_outcome(
    r: Result<Vec<String>, ErrorData>,
    expected: Result<Seq<Seq<char>>, Seq<char>>,
) -> bool {
    match expected {
        Ok(a) => r is Ok && strs(r->Ok_0@) == a,
        Err(m) => r is Err && r->Err_0 == invalid_params_error(m),
    }
}

/// The arguments that select the session `session_id`, if any; an identifier
/// that `validate_session_id` refuses gives an invalid-parameters error.
pub fn session_args(session_id: Option<&str>) -> (r: Result<Vec<String>, ErrorData>)
    ensures
        args_outcome(r, session_args_spec(opt_str_view(session_id))),
{
    match session_id {
        Some(sid) => {
            match validate_session_id(sid) {
                Ok(()) => {
                    let mut v = new_args("--session");
                    push_word(&mut v, sid);
                    assert(strs(v@) =~= seq!["--session"@, sid@]);
                    Ok(v)
                },
                Err(e) => Err(invalid_params(e)),
            }
        },
        None => {
            let v: Vec<String> = Vec::new();
            assert(strs(v@) =~= Seq::<Seq<char>>::empty());
            Ok(v)
        },
    }
}

/// Checks a file path; a refused one gives an invalid-parameters error.
pub fn validated_path(path: &str) -> (r: Result<(), ErrorData>)
    ensures
        match file_path_error(path@) {
            None => r is Ok,
            Some(m) => r is Err && r->Err_0 == invalid_params_error(m),
        },
{
    match validate_file_path(path) {
        Ok(()) => Ok(()),
        Err(e) => Err(invalid_params(e)),
    }
}

/// The borrowed text of an optional string.
pub fn opt_as_str(o: &Option<String>) -> (r: Option<&str>)
    ensures
        opt_str_view(r) == opt_view(*o),
{
    match o {
        Some(s) => Some(s.as_str()),
        None => None,
    }
}

/// `args` followed by the arguments that select the session, if any.
pub fn extend_session(args: Vec<String>, session_id: &Option<String>) -> (r: Result<
    Vec<String>,
    ErrorData,
>)
    ensures
        args_outcome(r, with_session(strs(args@), opt_view(*session_id))),
{
    let mut args = args;
    match session_args(opt_as_str(session_id)) {
        Ok(tail) => {
            push_all(&mut args, tail);
            Ok(args)
        },
        Err(e) => Err(e),
    }
}

/// A list holding the single argument `first`.
pub fn new_args(first: &str) -> (v: Vec<String>)
    ensures
        strs(v@) == seq![first@],
{
    let mut v: Vec<String> = Vec::new();
    v.push(String::from_str(first));
    assert(strs(v@) =~= seq![first@]);
    v
}

/// Appends the argument `w`.
pub fn push_word(v: &mut Vec<String>, w: &str)
    ensures
        strs(final(v)@) == strs(old(v)@).push(w@),
{
    v.push(String::from_str(w));
    assert(strs(v@) =~= strs(old(v)@).push(w@));
}

/// Appends the argument `s`.
pub fn push_string(v: &mut Vec<String>, s: String)
    ensures
        strs(final(v)@) == strs(old(v)@).push(s@),
{
    let ghost t = s@;
    v.push(s);
    assert(strs(v@) =~= strs(old(v)@).push(t));
}

/// Appends `flag` when `cond` holds.
pub fn push_flag_if(v: &mut Vec<String>, cond: bool, flag: &str)
    ensures
        strs(final(v)@) == strs(old(v)@) + flag_if(cond, flag@),
{
    if cond {
        push_word(v, flag);
    }
    assert(strs(v@) =~= strs(old(v)@) + flag_if(cond, flag@));
}

/// Appends the value, if there is one.
pub fn push_opt(v: &mut Vec<String>, o: Option<String>)
    ensures
        strs(final(v)@) == strs(old(v)@) + opt_arg(opt_view(o)),
{
    let ghost ov = opt_view(o);
    match o {
        Some(s) => push_string(v, s),
        None => {},
    }
    assert(strs(v@) =~= strs(old(v)@) + opt_arg(ov));
}

/// Appends `flag` and the value, if there is one.
pub fn push_opt_flag(v: &mut Vec<String>, flag: &str, o: Option<String>)
    ensures
        strs(final(v)@) == strs(old(v)@) + opt_flag_arg(flag@, opt_view(o)),
{
    let ghost ov = opt_view(o);
    match o {
        Some(s) => {
            push_word(v, flag);
            push_string(v, s);
        },
        None => {},
    }
    assert(strs(v@) =~= strs(old(v)@) + opt_flag_arg(flag@, ov));
}

/// Appends all of `w`.
pub fn push_all(v: &mut Vec<String>, w: Vec<String>)
    ensures
        strs(final(v)@) == strs(old(v)@) + strs(w@),
{
    let mut w = w;
    let ghost wv = w@;
    v.append(&mut w);
    assert(strs(v@) =~= strs(old(v)@) + strs(wv));
}

} // verus!
