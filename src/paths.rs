//! Paths as text: joining a relative name onto a directory.

use vstd::prelude::*;
use crate::text::chars_of;

verus! {

/// `name` placed inside `dir`: separated by one `/`, unless `dir` is empty
/// or already ends with one.
pub open spec fn join_spec(dir: Seq<char>, name: Seq<char>) -> Seq<char> {
    if dir.len() == 0 || dir.last() == '/' {
        dir + name
    } else {
        dir + seq!['/'] + name
    }
}

/// `name` (a relative path) placed inside the directory `dir`.
pub fn join_path(dir: &str, name: &str) -> (r: String)
    ensures
        r@ == join_spec(dir@, name@),
{
    let cs = chars_of(dir);
    let mut r = dir.to_owned();
    if cs.len() > 0 && cs[cs.len() - 1] != '/' {
        r.append("/");
        proof {
            reveal_strlit("/");
        }
    }
    r.append(name);
    r
}

} // verus!
