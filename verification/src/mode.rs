//! File-open mode strings.
//!
//! A file-backed stream is opened from a path and a mode string with the
//! classic stdio spelling: a base of `r`, `w` or `a`, optionally followed
//! by `+` (read and write) and/or `b` (binary), in either order.  The
//! string is validated and decoded here, before any backend sees it; an
//! invalid mode is an open failure, exactly as a bad path is.

use vstd::prelude::*;

use crate::errors::StreamError;

verus! {

use vstd::string::StrSliceExecFns;

/// What a mode string grants: the decoded open flags a file backend acts
/// on.  `binary` records the `b` flag, a no-op everywhere the distinction
/// between text and binary streams does not exist.
#[derive(Clone, Copy, Debug, PartialEq, Eq, Structural)]
pub struct FileMode {
    /// Reading is permitted (`r` base, or any `+` mode).
    pub read: bool,
    /// Writing is permitted (`w` or `a` base, or any `+` mode).
    pub write: bool,
    /// Writes go at the end of the file (`a` base).
    pub append: bool,
    /// An existing file is cut to nothing on open (`w` base).
    pub truncate: bool,
    /// A missing file is created on open (`w` or `a` base).
    pub create: bool,
    /// The `b` flag was present.
    pub binary: bool,
}

/// The meaning of a mode string: the flags it grants, or nothing when it
/// is not a valid mode.
pub open spec fn spec_parse_mode(m: Seq<char>) -> Option<FileMode> {
    if m.len() == 0 || m.len() > 3 {
        None
    } else {
        let base = m[0];
        let suffix_ok = if m.len() == 1 {
            true
        } else if m.len() == 2 {
            m[1] == '+' || m[1] == 'b'
        } else {
            (m[1] == '+' && m[2] == 'b') || (m[1] == 'b' && m[2] == '+')
        };
        if !suffix_ok || !(base == 'r' || base == 'w' || base == 'a') {
            None
        } else {
            let plus = (m.len() >= 2 && m[1] == '+') || (m.len() == 3 && m[2] == '+');
            let binary = (m.len() >= 2 && m[1] == 'b') || (m.len() == 3 && m[2] == 'b');
            Some(
                FileMode {
                    read: base == 'r' || plus,
                    write: base != 'r' || plus,
                    append: base == 'a',
                    truncate: base == 'w',
                    create: base != 'r',
                    binary,
                },
            )
        }
    }
}

/// Decode a mode string into the flags it grants.  Returns the flags for
/// exactly the valid modes, and an open error — never a panic — for every
/// other string.
pub fn parse_mode(mode: &str) -> (r: Result<FileMode, StreamError>)
    ensures
        match r {
            Ok(fm) => spec_parse_mode(mode@) == Some(fm),
            Err(e) => spec_parse_mode(mode@) is None && e matches StreamError::OpenError(_),
        },
{
    let n = mode.unicode_len();
    if n == 0 || n > 3 {
        return Err(StreamError::OpenError("invalid mode string".to_owned()));
    }
    let c0 = mode.get_char(0);
    if !(c0 == 'r' || c0 == 'w' || c0 == 'a') {
        return Err(StreamError::OpenError("invalid mode string".to_owned()));
    }
    let plus: bool;
    let binary: bool;
    if n == 1 {
        plus = false;
        binary = false;
    } else if n == 2 {
        let c1 = mode.get_char(1);
        if c1 == '+' {
            plus = true;
            binary = false;
        } else if c1 == 'b' {
            plus = false;
            binary = true;
        } else {
            return Err(StreamError::OpenError("invalid mode string".to_owned()));
        }
    } else {
        let c1 = mode.get_char(1);
        let c2 = mode.get_char(2);
        if (c1 == '+' && c2 == 'b') || (c1 == 'b' && c2 == '+') {
            plus = true;
            binary = true;
        } else {
            return Err(StreamError::OpenError("invalid mode string".to_owned()));
        }
    }
    Ok(
        FileMode {
            read: c0 == 'r' || plus,
            write: c0 != 'r' || plus,
            append: c0 == 'a',
            truncate: c0 == 'w',
            create: c0 != 'r',
            binary,
        },
    )
}

} // verus!
