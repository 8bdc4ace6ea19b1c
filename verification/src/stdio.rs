//! The standard-input transport: which command-line flags select it, and
//! which input lines carry no request.

use vstd::prelude::*;
use crate::text::{chars_of, is_whitespace, spec_is_whitespace, str_eq};

verus! {

/// Some argument is one of the two spellings of a flag.
pub open spec fn has_flag(args: Seq<String>, long: Seq<char>, short: Seq<char>) -> bool {
    exists|i: int| 0 <= i < args.len() && (#[trigger] args[i]@ == long || args[i]@ == short)
}

/// Whether some argument is `long` or `short`.
fn any_flag(args: &[String], long: &str, short: &str) -> (r: bool)
    ensures
        r == has_flag(args@, long@, short@),
{
    let mut i: usize = 0;
    while i < args.len()
        invariant
            i <= args@.len(),
            forall|k: int| 0 <= k < i ==> !(args@[k]@ == long@ || args@[k]@ == short@),
        decreases args.len() - i,
    {
        if str_eq(args[i].as_str(), long) || str_eq(args[i].as_str(), short) {
            assert(args@[i as int]@ == long@ || args@[i as int]@ == short@);
            return true;
        }
        i = i + 1;
    }
    false
}

/// Whether the arguments ask for the standard-input transport (`--stdio`
/// or `-s`).
pub fn should_use_stdio(args: &[String]) -> (r: bool)
    ensures
        r == has_flag(args@, "--stdio"@, "-s"@),
{
    any_flag(args, "--stdio", "-s")
}

/// Whether the arguments ask for batch mode (`--batch` or `-b`).
pub fn should_use_batch_mode(args: &[String]) -> (r: bool)
    ensures
        r == has_flag(args@, "--batch"@, "-b"@),
{
    any_flag(args, "--batch", "-b")
}

/// A line carries no request when it is empty or all white space.
pub open spec fn blank_line(line: Seq<char>) -> bool {
    forall|i: int| 0 <= i < line.len() ==> spec_is_whitespace(#[trigger] line[i])
}

/// Whether an input line carries no request.
pub fn is_blank_line(line: &str) -> (r: bool)
    ensures
        r == blank_line(line@),
{
    let cs = chars_of(line);
    let mut i: usize = 0;
    while i < cs.len()
        invariant
            i <= cs.len(),
            cs@ == line@,
            forall|k: int| 0 <= k < i ==> spec_is_whitespace(#[trigger] cs@[k]),
        decreases cs.len() - i,
    {
        if !is_whitespace(cs[i]) {
            return false;
        }
        i = i + 1;
    }
    true
}

} // verus!
