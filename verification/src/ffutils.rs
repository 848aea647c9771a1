//! Helpers shared by the transformations: output names and the escaping of
//! paths for a filter graph.

use vstd::prelude::*;
use vstd::string::*;
use crate::naming::{has_file_name, output_name, tagged_name, NameError};

verus! {

/// What one character of a path becomes inside a filter graph: a backslash
/// becomes a slash, a colon gets a backslash before it, and a single quote
/// gets two.
pub open spec fn escape_char(c: char) -> Seq<char> {
    if c == '\\' {
        seq!['/']
    } else if c == ':' {
        seq!['\\', ':']
    } else if c == '\'' {
        seq!['\\', '\\', '\'']
    } else {
        seq![c]
    }
}

/// The escaped form of `path`: each character replaced by `escape_char` of
/// it, in order.
pub open spec fn escaped(path: Seq<char>) -> Seq<char>
    decreases path.len(),
{
    if path.len() == 0 {
        Seq::empty()
    } else {
        escaped(path.drop_last()) + escape_char(path.last())
    }
}

/// Namespace of the helpers.
pub struct FFUtils;

impl FFUtils {
    /// The name of the output file for the source file name `src` and the
    /// tag `suffix`: `{stem}_{suffix}.{ext}`, with `mp4` where `src` has no
    /// extension. Fails exactly when `src` names no file.
    pub fn get_dst(src: &str, suffix: &str) -> (r: Result<String, NameError>)
        ensures
            has_file_name(src@) ==> r is Ok && r->Ok_0@ == tagged_name(src@, suffix@),
            !has_file_name(src@) ==> r == Err::<String, NameError>(NameError::InvalidSourceName),
    {
        output_name(src, suffix)
    }

    /// `path` escaped for use inside a filter graph.
    pub fn escape_path(path: &str) -> (r: String)
        ensures
            r@ == escaped(path@),
    {
        let n: usize = path.unicode_len();
        let mut out = String::new();
        let mut i: usize = 0;
        proof {
            assert(path@.subrange(0, 0) =~= Seq::<char>::empty());
        }
        while i < n
            invariant
                i <= n,
                n == path@.len(),
                out@ == escaped(path@.subrange(0, i as int)),
            decreases n - i,
        {
            let c = path.get_char(i);
            proof {
                let next = path@.subrange(0, i + 1);
                assert(next.drop_last() =~= path@.subrange(0, i as int));
                assert(next.last() == c);
                reveal_strlit("/");
                reveal_strlit("\\:");
                reveal_strlit("\\\\'");
                assert("/"@ =~= seq!['/']);
                assert("\\:"@ =~= seq!['\\', ':']);
                assert("\\\\'"@ =~= seq!['\\', '\\', '\'']);
                assert(path@.subrange(i as int, i + 1) =~= seq![c]);
            }
            if c == '\\' {
                out.append("/");
            } else if c == ':' {
                out.append("\\:");
            } else if c == '\'' {
                out.append("\\\\'");
            } else {
                out.append(path.substring_char(i, i + 1));
            }
            i = i + 1;
        }
        proof {
            assert(path@.subrange(0, n as int) =~= path@);
        }
        out
    }
}

} // verus!
