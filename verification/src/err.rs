//! Errors returned by Sibyl

use vstd::prelude::*;
use vstd::string::*;
use crate::oci::{OCI_HTYPE_ENV, OCI_HTYPE_ERROR, OCI_NEED_DATA, OCI_NO_DATA, OCI_SUCCESS};
use crate::text::{decimal, push_decimal, push_zero_padded5, zero_padded5};

verus! {

/// Represents possible errors returned from Sibyl
pub enum Error {
    /// Error conditions detected by Sibyl
    Interface(String),
    /// Errors returned by OCI
    Oracle(i32, String),
}

/// Where to ask OCI for the diagnostics of a failed call: the handle, its type and
/// the status code that the call returned.
pub struct Diag {
    pub handle: usize,
    pub htype: u32,
    pub rc: i32,
}

impl Diag {
    /// Diagnostics that an environment handle holds (calls that take no error handle).
    pub fn env(env: usize, rc: i32) -> (r: Diag)
        ensures
            r == (Diag { handle: env, htype: OCI_HTYPE_ENV, rc }),
    {
        Diag { handle: env, htype: OCI_HTYPE_ENV, rc }
    }

    /// Diagnostics that an error handle holds.
    pub fn oci(err: usize, rc: i32) -> (r: Diag)
        ensures
            r == (Diag { handle: err, htype: OCI_HTYPE_ERROR, rc }),
    {
        Diag { handle: err, htype: OCI_HTYPE_ERROR, rc }
    }
}

/// Whether a message already carries its `ORA-` prefix.
pub open spec fn starts_with_ora(s: Seq<char>) -> bool {
    s.len() >= 4 && s[0] == 'O' && s[1] == 'R' && s[2] == 'A' && s[3] == '-'
}

/// Whether a character has the Unicode `White_Space` property (`char::is_whitespace`).
pub open spec fn is_white_space(c: char) -> bool {
    ||| '\u{9}' <= c <= '\u{d}'
    ||| c == ' '
    ||| c == '\u{85}'
    ||| c == '\u{a0}'
    ||| c == '\u{1680}'
    ||| '\u{2000}' <= c <= '\u{200a}'
    ||| c == '\u{2028}'
    ||| c == '\u{2029}'
    ||| c == '\u{202f}'
    ||| c == '\u{205f}'
    ||| c == '\u{3000}'
}

fn white_space(c: char) -> (r: bool)
    ensures
        r == is_white_space(c),
{
    ('\u{9}' <= c && c <= '\u{d}') || c == ' ' || c == '\u{85}' || c == '\u{a0}' || c == '\u{1680}'
        || ('\u{2000}' <= c && c <= '\u{200a}') || c == '\u{2028}' || c == '\u{2029}' || c == '\u{202f}'
        || c == '\u{205f}' || c == '\u{3000}'
}

/// The text without its trailing white space (as `str::trim_end` gives it).
pub open spec fn trimmed_end(s: Seq<char>) -> Seq<char>
    decreases s.len(),
{
    if s.len() > 0 && is_white_space(s.last()) {
        trimmed_end(s.drop_last())
    } else {
        s
    }
}

fn trim_end(s: &str) -> (r: &str)
    ensures
        r@ == trimmed_end(s@),
{
    let mut k: usize = s.unicode_len();
    assert(s@.subrange(0, k as int) =~= s@);
    while k > 0 && white_space(s.get_char(k - 1))
        invariant
            k <= s@.len(),
            trimmed_end(s@) == trimmed_end(s@.subrange(0, k as int)),
        decreases k,
    {
        assert(s@.subrange(0, k as int).drop_last() =~= s@.subrange(0, k - 1));
        k = k - 1;
    }
    s.substring_char(0, k)
}

/// The message for an OCI failure: OCI's own text when OCI could report it, or a
/// description of the status code otherwise.
pub open spec fn oracle_message(get_res: i32, errcode: i32, text: Seq<char>) -> Seq<char> {
    if get_res == OCI_SUCCESS {
        trimmed_end(text)
    } else if errcode == OCI_NO_DATA {
        seq!['N', 'o', ' ', 'D', 'a', 't', 'a']
    } else if errcode == OCI_NEED_DATA {
        seq!['N', 'e', 'e', 'd', ' ', 'D', 'a', 't', 'a']
    } else {
        seq!['E', 'r', 'r', 'o', 'r', ' '] + decimal(errcode as int)
    }
}

/// Builds the code and message of an OCI failure from what `OCIErrorGet` reported:
/// its own status `get_res`, the error code it wrote (the call's status if it wrote
/// none) and the message text.
pub fn get_oracle_error(get_res: i32, errcode: i32, text: &str) -> (r: (i32, String))
    ensures
        r.0 == errcode,
        r.1@ == oracle_message(get_res, errcode, text@),
{
    let msg = if get_res == OCI_SUCCESS {
        let t = trim_end(text);
        t.to_owned()
    } else if errcode == OCI_NO_DATA {
        proof { reveal_strlit("No Data"); }
        String::from_str("No Data")
    } else if errcode == OCI_NEED_DATA {
        proof { reveal_strlit("Need Data"); }
        String::from_str("Need Data")
    } else {
        proof { reveal_strlit("Error "); }
        let mut m = String::from_str("Error ");
        push_decimal(&mut m, errcode as i64);
        m
    };
    (errcode, msg)
}

fn starts_with_ora_exec(s: &str) -> (r: bool)
    ensures
        r == starts_with_ora(s@),
{
    if s.unicode_len() < 4 {
        false
    } else {
        s.get_char(0) == 'O' && s.get_char(1) == 'R' && s.get_char(2) == 'A' && s.get_char(3) == '-'
    }
}

impl Error {
    /// The text that the error displays.
    pub open spec fn display(&self) -> Seq<char> {
        match self {
            Error::Oracle(code, msg) => if starts_with_ora(msg@) {
                msg@
            } else {
                seq!['O', 'R', 'A', '-'] + zero_padded5(*code as int) + seq![':', ' '] + msg@
            },
            Error::Interface(msg) => msg@,
        }
    }

    /// Whether two errors are the same: Oracle errors by their code, interface errors
    /// by their message.
    pub open spec fn same(&self, other: &Error) -> bool {
        match (self, other) {
            (Error::Oracle(a, _), Error::Oracle(b, _)) => a == b,
            (Error::Interface(a), Error::Interface(b)) => a@ == b@,
            _ => false,
        }
    }

    pub fn new(msg: &str) -> (r: Self)
        ensures
            r matches Error::Interface(m) && m@ == msg@,
    {
        Error::Interface(msg.to_owned())
    }

    pub fn msg(msg: String) -> (r: Self)
        ensures
            r == Error::Interface(msg),
    {
        Error::Interface(msg)
    }

    /// The error that OCI reported, given what `OCIErrorGet` returned for it.
    pub fn from_diagnostics(get_res: i32, errcode: i32, text: &str) -> (r: Self)
        ensures
            r matches Error::Oracle(code, msg) && code == errcode
                && msg@ == oracle_message(get_res, errcode, text@),
    {
        let (code, msg) = get_oracle_error(get_res, errcode, text);
        Error::Oracle(code, msg)
    }

    /// Compares errors: Oracle errors are equal when their codes are, interface errors
    /// when their messages are.
    pub fn eq(&self, other: &Error) -> (r: bool)
        ensures
            r == self.same(other),
    {
        match (self, other) {
            (Error::Oracle(a, _), Error::Oracle(b, _)) => *a == *b,
            (Error::Interface(a), Error::Interface(b)) => *a == *b,
            _ => false,
        }
    }

    /// The displayed text: an Oracle error is `ORA-` and its zero-padded code followed
    /// by the message, unless the message already starts with `ORA-`.
    pub fn to_string(&self) -> (r: String)
        ensures
            r@ == self.display(),
    {
        match self {
            Error::Oracle(code, msg) => {
                if starts_with_ora_exec(msg.as_str()) {
                    msg.clone()
                } else {
                    proof {
                        reveal_strlit("ORA-");
                        reveal_strlit(": ");
                    }
                    let mut s = String::from_str("ORA-");
                    push_zero_padded5(&mut s, *code as i64);
                    s.append(": ");
                    s.append(msg.as_str());
                    s
                }
            },
            Error::Interface(msg) => msg.clone(),
        }
    }
}

} // verus!
