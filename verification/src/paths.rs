use vstd::prelude::*;
use vstd::string::StrSliceExecFns;
use vstd::string::StringExecFns;

verus! {

/// The absolute path a tracee's raw path argument stands for, given the
/// directory it is relative to: an already absolute path is kept as it is,
/// a relative one is joined onto the directory with exactly one separator.
pub open spec fn joined_path(dir: Seq<char>, raw: Seq<char>) -> Seq<char> {
    if raw.len() > 0 && raw[0] == '/' {
        raw
    } else if dir.len() > 0 && dir[dir.len() - 1] == '/' {
        dir + raw
    } else {
        dir + seq!['/'] + raw
    }
}

/// Resolve a path read out of a tracee against the directory it is relative
/// to (the tracee's working directory, or the directory an open descriptor
/// refers to).
pub fn resolve_path(dir: &str, raw: &str) -> (r: String)
    ensures
        r@ == joined_path(dir@, raw@),
{
    let raw_len = raw.unicode_len();
    if raw_len > 0 && raw.get_char(0) == '/' {
        return String::from_str(raw);
    }
    let dir_len = dir.unicode_len();
    let mut out = String::from_str(dir);
    if !(dir_len > 0 && dir.get_char(dir_len - 1) == '/') {
        out.append("/");
        proof {
            reveal_strlit("/");
            assert(out@ =~= dir@ + seq!['/']);
        }
    }
    out.append(raw);
    proof {
        assert(out@ =~= joined_path(dir@, raw@));
    }
    out
}

} // verus!
