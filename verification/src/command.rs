//! Result shaping for the command-execution leaf utility.
//!
//! The daemon runs its queries in a subprocess and decodes captured
//! standard output as text; that part is I/O and lives outside the
//! library.  The value-level contract of the utility lives here: an empty
//! command expression or undecodable output yields no result, and a
//! successful reading has exactly one trailing newline stripped.

use vstd::prelude::*;

verus! {

/// `t` with one trailing newline removed, if it ends in one.
pub open spec fn spec_trimmed(t: Seq<char>) -> Seq<char> {
    if t.len() > 0 && t.last() == '\n' {
        t.drop_last()
    } else {
        t
    }
}

/// Strips exactly one trailing newline from a decoded subprocess output,
/// if one is present; any other output is returned unchanged.
pub fn trim_output(s: String) -> (r: String)
    ensures
        r@ == spec_trimmed(s@),
{
    let n = s.as_str().unicode_len();
    if n > 0 && s.as_str().get_char(n - 1) == '\n' {
        let trimmed = s.as_str().substring_char(0, n - 1).to_owned();
        proof {
            assert(trimmed@ =~= s@.drop_last());
        }
        trimmed
    } else {
        s
    }
}

/// Shapes the result of one command execution: an empty command expression
/// produces no result, undecodable output produces no result, and decoded
/// output is returned with one trailing newline stripped.
pub fn command_result(cmd: &str, decoded: Option<String>) -> (r: Option<String>)
    ensures
        r is Some <==> (cmd@.len() > 0 && decoded is Some),
        r is Some ==> r.unwrap()@ == spec_trimmed(decoded.unwrap()@),
{
    if cmd.is_empty() {
        return None;
    }
    match decoded {
        Some(s) => Some(trim_output(s)),
        None => None,
    }
}

} // verus!
