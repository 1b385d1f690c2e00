//! Absolute-path normalization and child-path joining for listing and
//! transfer requests.

use vstd::prelude::*;
use vstd::string::StrSliceExecFns;
use vstd::string::StringExecFns;
use crate::text::trim_end_slashes;
use crate::text::trim_end_slashes_str;

verus! {

/// The absolute form of a requested path: unchanged when it already starts
/// with a slash, otherwise with one slash prepended.
pub open spec fn spec_normalize_path(p: Seq<char>) -> Seq<char> {
    if p.len() > 0 && p[0] == '/' {
        p
    } else {
        seq!['/'] + p
    }
}

/// Normalizes a requested path to its absolute form.
pub fn normalize_path(path: &str) -> (r: String)
    ensures
        r@ == spec_normalize_path(path@),
        r@.len() > 0 && r@[0] == '/',
{
    let len = path.unicode_len();
    if len > 0 && path.get_char(0) == '/' {
        String::from_str(path)
    } else {
        proof {
            reveal_strlit("/");
        }
        let mut r = String::from_str("/");
        r.append(path);
        proof {
            assert(r@ =~= seq!['/'] + path@);
        }
        r
    }
}

/// The absolute path of a child named `name` inside `dir`: `dir` without its
/// trailing slashes, then one slash, then `name`.
pub open spec fn spec_join_path(dir: Seq<char>, name: Seq<char>) -> Seq<char> {
    let d = trim_end_slashes(dir);
    if d.len() == 0 {
        seq!['/'] + name
    } else {
        d + seq!['/'] + name
    }
}

/// Joins a directory path and a child name into the child's absolute path.
pub fn join_path(dir: &str, name: &str) -> (r: String)
    ensures
        r@ == spec_join_path(dir@, name@),
{
    proof {
        reveal_strlit("/");
    }
    let d = trim_end_slashes_str(dir);
    if d.as_str().unicode_len() == 0 {
        let mut r = String::from_str("/");
        r.append(name);
        proof {
            assert(r@ =~= seq!['/'] + name@);
        }
        r
    } else {
        let mut r = d;
        r.append("/");
        r.append(name);
        proof {
            assert(r@ =~= trim_end_slashes(dir@) + seq!['/'] + name@);
        }
        r
    }
}

} // verus!
