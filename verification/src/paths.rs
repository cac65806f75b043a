//! Filesystem paths as plain strings, joined the way `Path::join` joins
//! them on Unix.

use crate::text::{chars_of, push_chars, string_from_chars};
use vstd::prelude::*;

verus! {

/// `base` joined with `rel` as `Path::join` does on Unix: an absolute `rel`
/// replaces `base`; otherwise a `/` goes between them unless `base` is
/// empty or already ends in one.
pub open spec fn join_path(base: Seq<char>, rel: Seq<char>) -> Seq<char> {
    if rel.len() > 0 && rel[0] == '/' {
        rel
    } else if base.len() == 0 || base.last() == '/' {
        base + rel
    } else {
        base + seq!['/'] + rel
    }
}

/// Joins the character sequences `base` and `rel` into a path.
pub fn join_chars(base: &Vec<char>, rel: &Vec<char>) -> (p: Vec<char>)
    ensures
        p@ == join_path(base@, rel@),
{
    if rel.len() > 0 && rel[0] == '/' {
        let mut out: Vec<char> = Vec::new();
        push_chars(&mut out, rel);
        assert(out@ == rel@);
        return out;
    }
    let mut out: Vec<char> = Vec::new();
    push_chars(&mut out, base);
    let n = base.len();
    if n > 0 && base[n - 1] != '/' {
        out.push('/');
    }
    push_chars(&mut out, rel);
    out
}

/// Joins `base` and `rel` into a path.
pub fn join(base: &str, rel: &str) -> (p: String)
    ensures
        p@ == join_path(base@, rel@),
{
    let b = chars_of(base);
    let r = chars_of(rel);
    string_from_chars(&join_chars(&b, &r))
}

} // verus!
