//! Paths as plain strings, joined the way `PathBuf::push` joins them.
use vstd::prelude::*;

verus! {

/// `dir` with `name` pushed onto it: an absolute `name` replaces `dir`;
/// otherwise a `/` is put between them unless `dir` is empty or already ends
/// with one.
pub open spec fn join(dir: Seq<char>, name: Seq<char>) -> Seq<char> {
    if name.len() > 0 && name[0] == '/' {
        name
    } else if dir.len() == 0 || dir.last() == '/' {
        dir + name
    } else {
        dir + seq!['/'] + name
    }
}

/// Joins `name` onto `dir`; see `join`.
pub fn join_path(dir: &str, name: &str) -> (r: String)
    ensures
        r@ == join(dir@, name@),
{
    let n = name.unicode_len();
    if n > 0 && name.get_char(0) == '/' {
        return String::from_str(name);
    }
    let d = dir.unicode_len();
    let mut out = String::from_str(dir);
    if !(d == 0 || dir.get_char(d - 1) == '/') {
        out.append("/");
        proof {
            reveal_strlit("/");
            assert(out@ =~= dir@ + seq!['/']);
        }
    }
    out.append(name);
    proof {
        if d == 0 || dir@.last() == '/' {
            assert(out@ =~= dir@ + name@);
        } else {
            assert(out@ =~= dir@ + seq!['/'] + name@);
        }
    }
    out
}

} // verus!
