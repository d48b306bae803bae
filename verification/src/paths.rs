//! Paths, as text whose parts are separated by `/`.

use crate::text::{chars_of, concat, concat3};
use vstd::prelude::*;

verus! {

/// An absolute path begins with `/`.
pub open spec fn absolute(path: Seq<char>) -> bool {
    path.len() > 0 && path[0] == '/'
}

/// `path` as seen from the directory `base`: an absolute path stays as it is,
/// any other is put behind `base` and a separator, which is not doubled.
pub open spec fn resolved(base: Seq<char>, path: Seq<char>) -> Seq<char> {
    if absolute(path) {
        path
    } else if base.len() == 0 || base.last() == '/' {
        base + path
    } else {
        base + "/"@ + path
    }
}

/// `path` as seen from the directory `base`.
pub fn resolve(base: &str, path: &str) -> (r: String)
    ensures
        r@ == resolved(base@, path@),
{
    let b: Vec<char> = chars_of(base);
    let p: Vec<char> = chars_of(path);
    if p.len() > 0 && p[0] == '/' {
        path.to_owned()
    } else if b.len() == 0 || b[b.len() - 1] == '/' {
        concat(base, path)
    } else {
        concat3(base, "/", path)
    }
}

/// A path that begins with a separator is the same from everywhere. Any other
/// stands behind the directory, with one separator between the two, whether or
/// not the directory ends with one; no directory adds nothing.
pub proof fn paths_are_seen_from_their_directory(base: Seq<char>, path: Seq<char>)
    ensures
        resolved(base, seq!['/'] + path) == seq!['/'] + path,
        !seq!['/'].is_prefix_of(path) ==> {
            &&& resolved(Seq::empty(), path) == path
            &&& resolved(base + seq!['/'], path) == base + seq!['/'] + path
            &&& base.len() > 0 && base.last() != '/' ==> resolved(base, path) == base + seq!['/']
                + path
        },
{
    assert((seq!['/'] + path)[0] == '/');
    reveal_strlit("/");
    assert("/"@ =~= seq!['/']);
    if !seq!['/'].is_prefix_of(path) {
        if path.len() > 0 && path[0] == '/' {
            assert(seq!['/'] =~= path.subrange(0, 1));
        }
        assert(Seq::<char>::empty() + path =~= path);
        assert((base + seq!['/']).last() == '/');
    }
}

} // verus!
