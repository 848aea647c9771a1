//! Output file names derived from an input file name and a per-step tag.
//!
//! A file name here is the final component of a path, without any directory
//! part. The stem and the extension of a name follow the usual convention: the
//! extension is what stands behind the last `.`, unless that `.` is the first
//! character of the name, and the stem is what stands before it.

use vstd::prelude::*;
use vstd::string::*;

verus! {

/// Why no output name can be derived from a source name.
#[derive(Clone, Copy, Debug, PartialEq, Eq, Structural)]
pub enum NameError {
    /// The source has no file name: it is empty, `.` or `..`.
    InvalidSourceName,
}

/// The names of `names`, each by its characters.
pub open spec fn names_view(names: Seq<String>) -> Seq<Seq<char>> {
    Seq::new(names.len(), |i: int| names[i]@)
}

/// The name in `name`, if any, by its characters.
pub open spec fn name_view(name: Option<String>) -> Option<Seq<char>> {
    match name {
        Some(n) => Some(n@),
        None => None,
    }
}

/// Position of the last `.` in `name`, or `-1` when there is none.
pub open spec fn last_dot(name: Seq<char>) -> int
    decreases name.len(),
{
    if name.len() == 0 {
        -1
    } else if name.last() == '.' {
        name.len() - 1
    } else {
        last_dot(name.drop_last())
    }
}

/// Whether `name` names a file: it is neither empty, nor `.`, nor `..`.
pub open spec fn has_file_name(name: Seq<char>) -> bool {
    name.len() > 0 && name != seq!['.'] && name != seq!['.', '.']
}

/// Whether `name` divides into a stem and an extension.
pub open spec fn has_extension(name: Seq<char>) -> bool {
    last_dot(name) > 0 && name != seq!['.', '.']
}

/// The part of `name` before its extension; all of `name` when it has none.
pub open spec fn stem_of(name: Seq<char>) -> Seq<char> {
    if has_extension(name) {
        name.subrange(0, last_dot(name))
    } else {
        name
    }
}

/// The part of `name` behind its last `.`, when it has an extension.
pub open spec fn extension_of(name: Seq<char>) -> Option<Seq<char>> {
    if has_extension(name) {
        Some(name.subrange(last_dot(name) + 1, name.len() as int))
    } else {
        None
    }
}

/// The extension given to outputs of a source that has none.
pub open spec fn default_extension() -> Seq<char> {
    seq!['m', 'p', '4']
}

/// The extension that outputs of `name` carry.
pub open spec fn output_extension(name: Seq<char>) -> Seq<char> {
    match extension_of(name) {
        Some(e) => e,
        None => default_extension(),
    }
}

/// `{stem}_{tag}.{ext}`: the name of the output that a step with the tag
/// `tag` writes for the source `name`.
pub open spec fn tagged_name(name: Seq<char>, tag: Seq<char>) -> Seq<char> {
    stem_of(name) + seq!['_'] + tag + seq!['.'] + output_extension(name)
}

/// The tag of the final output of a chained job.
pub open spec fn processed_tag() -> Seq<char> {
    seq!['p', 'r', 'o', 'c', 'e', 's', 's', 'e', 'd']
}

/// `{stem}_processed.{ext}`: the canonical name of the final output of a
/// chained job on the source `name`.
pub open spec fn processed_name(name: Seq<char>) -> Seq<char> {
    tagged_name(name, processed_tag())
}

/// `last_dot` points at a `.`, and no `.` stands behind it.
pub proof fn lemma_last_dot(name: Seq<char>)
    ensures
        -1 <= last_dot(name) < name.len(),
        last_dot(name) >= 0 ==> name[last_dot(name)] == '.',
        forall|j: int| last_dot(name) < j < name.len() ==> name[j] != '.',
    decreases name.len(),
{
    if name.len() > 0 && name.last() != '.' {
        let front = name.drop_last();
        lemma_last_dot(front);
        assert forall|j: int| last_dot(name) < j < name.len() implies name[j] != '.' by {
            if j < front.len() {
                assert(front[j] == name[j]);
            }
        }
        if last_dot(front) >= 0 {
            assert(front[last_dot(front)] == name[last_dot(front)]);
        }
    }
}

/// A position that holds a `.` with none behind it is `last_dot`.
pub proof fn lemma_last_dot_unique(name: Seq<char>, k: int)
    requires
        -1 <= k < name.len(),
        k >= 0 ==> name[k] == '.',
        forall|j: int| k < j < name.len() ==> name[j] != '.',
    ensures
        last_dot(name) == k,
{
    lemma_last_dot(name);
    if last_dot(name) < k {
        assert(name[k] == '.');
    } else if last_dot(name) > k {
        assert(name[last_dot(name)] == '.');
    }
}

/// The position of the last `.` in `name`, if it holds one.
pub fn find_last_dot(name: &str) -> (r: Option<usize>)
    ensures
        match r {
            Some(i) => i as int == last_dot(name@),
            None => last_dot(name@) == -1,
        },
{
    let n: usize = name.unicode_len();
    let mut i: usize = n;
    while i > 0
        invariant
            i <= n,
            n == name@.len(),
            forall|j: int| i <= j < n ==> name@[j] != '.',
        decreases i,
    {
        if name.get_char(i - 1) == '.' {
            proof {
                lemma_last_dot_unique(name@, (i - 1) as int);
            }
            return Some(i - 1);
        }
        i = i - 1;
    }
    proof {
        lemma_last_dot_unique(name@, -1);
    }
    None
}

/// Whether `name` names a file.
pub fn is_file_name(name: &str) -> (r: bool)
    ensures
        r == has_file_name(name@),
{
    let n: usize = name.unicode_len();
    if n == 0 {
        false
    } else if n == 1 {
        let c = name.get_char(0);
        proof {
            if c == '.' {
                assert(name@ =~= seq!['.']);
            } else {
                assert(seq!['.'][0] == '.');
            }
        }
        c != '.'
    } else if n == 2 {
        let c0 = name.get_char(0);
        let c1 = name.get_char(1);
        proof {
            if c0 == '.' && c1 == '.' {
                assert(name@ =~= seq!['.', '.']);
            } else {
                assert(seq!['.', '.'][0] == '.');
                assert(seq!['.', '.'][1] == '.');
            }
        }
        !(c0 == '.' && c1 == '.')
    } else {
        true
    }
}

/// The position of the `.` that divides `name` into stem and extension, if
/// it has an extension.
pub fn find_extension_dot(name: &str) -> (r: Option<usize>)
    ensures
        match r {
            Some(i) => has_extension(name@) && i as int == last_dot(name@),
            None => !has_extension(name@),
        },
{
    match find_last_dot(name) {
        Some(i) => {
            if i == 0 {
                None
            } else if i == 1 && name.unicode_len() == 2 && name.get_char(0) == '.' {
                proof {
                    lemma_last_dot(name@);
                    assert(name@ =~= seq!['.', '.']);
                }
                None
            } else {
                proof {
                    lemma_last_dot(name@);
                    if name@ == seq!['.', '.'] {
                        assert(seq!['.', '.'][0] == '.');
                    }
                }
                Some(i)
            }
        },
        None => None,
    }
}

/// The stem of `name`.
pub fn file_stem(name: &str) -> (r: String)
    ensures
        r@ == stem_of(name@),
{
    match find_extension_dot(name) {
        Some(i) => {
            proof {
                lemma_last_dot(name@);
            }
            String::from_str(name.substring_char(0, i))
        },
        None => String::from_str(name),
    }
}

/// The extension of `name`, if it has one.
pub fn extension(name: &str) -> (r: Option<String>)
    ensures
        match r {
            Some(e) => extension_of(name@) == Some(e@),
            None => extension_of(name@) is None,
        },
{
    match find_extension_dot(name) {
        Some(i) => {
            proof {
                lemma_last_dot(name@);
            }
            let n: usize = name.unicode_len();
            Some(String::from_str(name.substring_char(i + 1, n)))
        },
        None => None,
    }
}

/// The name `{stem}_{tag}.{ext}` for the source `name`, whatever `name` is.
pub fn tagged(name: &str, tag: &str) -> (r: String)
    ensures
        r@ == tagged_name(name@, tag@),
{
    let mut out = file_stem(name);
    out.append("_");
    out.append(tag);
    out.append(".");
    match extension(name) {
        Some(e) => {
            out.append(e.as_str());
        },
        None => {
            out.append("mp4");
        },
    }
    proof {
        reveal_strlit("_");
        reveal_strlit(".");
        reveal_strlit("mp4");
        assert("_"@ =~= seq!['_']);
        assert("."@ =~= seq!['.']);
        assert("mp4"@ =~= default_extension());
    }
    out
}

/// The name of the output that a step with the tag `tag` writes for the
/// source `name`: `{stem}_{tag}.{ext}`, with `mp4` for a source without an
/// extension. Fails exactly when `name` names no file.
pub fn output_name(name: &str, tag: &str) -> (r: Result<String, NameError>)
    ensures
        has_file_name(name@) ==> r is Ok && r->Ok_0@ == tagged_name(name@, tag@),
        !has_file_name(name@) ==> r == Err::<String, NameError>(NameError::InvalidSourceName),
{
    if is_file_name(name) {
        Ok(tagged(name, tag))
    } else {
        Err(NameError::InvalidSourceName)
    }
}

/// A name with an extension is its stem, a `.` and its extension.
pub proof fn lemma_name_parts(name: Seq<char>)
    requires
        has_extension(name),
    ensures
        name == stem_of(name) + seq!['.'] + extension_of(name)->Some_0,
        forall|j: int|
            0 <= j < output_extension(name).len() ==> output_extension(name)[j] != '.',
{
    lemma_last_dot(name);
    assert(name =~= stem_of(name) + seq!['.'] + extension_of(name)->Some_0);
    let d = last_dot(name);
    assert forall|j: int| 0 <= j < output_extension(name).len() implies output_extension(
        name,
    )[j] != '.' by {
        assert(output_extension(name)[j] == name[d + 1 + j]);
    }
}

/// The extension that outputs carry never holds a `.`.
pub proof fn lemma_output_extension_plain(name: Seq<char>)
    ensures
        forall|j: int|
            0 <= j < output_extension(name).len() ==> output_extension(name)[j] != '.',
{
    if has_extension(name) {
        lemma_name_parts(name);
    }
}

/// A tagged name has an extension: that of its source (or the default), and
/// its stem is the source's stem, a `_` and the tag. It is longer than its
/// source.
pub proof fn lemma_tagged_name_parts(name: Seq<char>, tag: Seq<char>)
    ensures
        has_extension(tagged_name(name, tag)),
        has_file_name(tagged_name(name, tag)),
        stem_of(tagged_name(name, tag)) == stem_of(name) + seq!['_'] + tag,
        extension_of(tagged_name(name, tag)) == Some(output_extension(name)),
        output_extension(tagged_name(name, tag)) == output_extension(name),
        tagged_name(name, tag).len() > name.len(),
{
    let out = tagged_name(name, tag);
    let front = stem_of(name) + seq!['_'] + tag;
    let ext = output_extension(name);
    let k = front.len() as int;
    lemma_output_extension_plain(name);
    lemma_last_dot(name);
    assert(out[k] == '.');
    assert forall|j: int| k < j < out.len() implies out[j] != '.' by {
        assert(out[j] == ext[j - k - 1]);
    }
    lemma_last_dot_unique(out, k);
    assert(out[stem_of(name).len() as int] == '_');
    assert(k >= 1);
    if out == seq!['.', '.'] {
        assert(seq!['.', '.'].len() == 2);
        assert(out.len() >= 2);
    }
    assert(out.subrange(0, k) =~= front);
    assert(out.subrange(k + 1, out.len() as int) =~= ext);
    if has_extension(name) {
        lemma_name_parts(name);
    }
}

/// For one tag, sources that differ in stem or in output extension get
/// different output names.
pub proof fn lemma_tagged_name_separates(a: Seq<char>, b: Seq<char>, tag: Seq<char>)
    requires
        tagged_name(a, tag) == tagged_name(b, tag),
    ensures
        stem_of(a) == stem_of(b),
        output_extension(a) == output_extension(b),
{
    lemma_tagged_name_parts(a, tag);
    lemma_tagged_name_parts(b, tag);
    let fa = stem_of(a) + seq!['_'] + tag;
    let fb = stem_of(b) + seq!['_'] + tag;
    assert(fa == fb);
    assert(stem_of(a).len() == stem_of(b).len());
    assert forall|j: int| 0 <= j < stem_of(a).len() implies stem_of(a)[j] == stem_of(b)[j] by {
        assert(fa[j] == stem_of(a)[j]);
        assert(fb[j] == stem_of(b)[j]);
    }
    assert(stem_of(a) =~= stem_of(b));
}

/// For one tag, two different sources that both have an extension get
/// different output names.
pub proof fn lemma_tagged_name_injective(a: Seq<char>, b: Seq<char>, tag: Seq<char>)
    requires
        has_extension(a),
        has_extension(b),
        a != b,
    ensures
        tagged_name(a, tag) != tagged_name(b, tag),
{
    if tagged_name(a, tag) == tagged_name(b, tag) {
        lemma_tagged_name_separates(a, b, tag);
        lemma_name_parts(a);
        lemma_name_parts(b);
    }
}

/// Whether `tag` holds no `_`.
pub open spec fn plain_tag(tag: Seq<char>) -> bool {
    forall|j: int| 0 <= j < tag.len() ==> tag[j] != '_'
}

/// With tags that hold no `_`, an output name determines the tag, and the
/// stem and output extension of its source.
pub proof fn lemma_tagged_name_determines_tag(
    a: Seq<char>,
    ta: Seq<char>,
    b: Seq<char>,
    tb: Seq<char>,
)
    requires
        plain_tag(ta),
        plain_tag(tb),
        tagged_name(a, ta) == tagged_name(b, tb),
    ensures
        ta == tb,
        stem_of(a) == stem_of(b),
        output_extension(a) == output_extension(b),
{
    lemma_tagged_name_parts(a, ta);
    lemma_tagged_name_parts(b, tb);
    let fa = stem_of(a) + seq!['_'] + ta;
    let fb = stem_of(b) + seq!['_'] + tb;
    assert(fa == fb);
    let la = stem_of(a).len() as int;
    let lb = stem_of(b).len() as int;
    if la < lb {
        assert(fb[lb] == '_');
        assert(fa[lb] == ta[lb - la - 1]);
    } else if lb < la {
        assert(fa[la] == '_');
        assert(fb[la] == tb[la - lb - 1]);
    }
    assert(la == lb);
    assert forall|j: int| 0 <= j < ta.len() implies ta[j] == tb[j] by {
        assert(fa[la + 1 + j] == ta[j]);
        assert(fb[la + 1 + j] == tb[j]);
    }
    assert(ta =~= tb);
    lemma_tagged_name_separates(a, b, ta);
}

/// Two steps of one source with different tags write different outputs.
pub proof fn lemma_tagged_name_by_tag(name: Seq<char>, ta: Seq<char>, tb: Seq<char>)
    requires
        ta != tb,
    ensures
        tagged_name(name, ta) != tagged_name(name, tb),
{
    if tagged_name(name, ta) == tagged_name(name, tb) {
        lemma_tagged_name_parts(name, ta);
        lemma_tagged_name_parts(name, tb);
        let s = stem_of(name);
        let fa = s + seq!['_'] + ta;
        let fb = s + seq!['_'] + tb;
        assert(fa == fb);
        assert forall|j: int| 0 <= j < ta.len() implies ta[j] == tb[j] by {
            assert(fa[s.len() + 1 + j] == ta[j]);
            assert(fb[s.len() + 1 + j] == tb[j]);
        }
        assert(ta =~= tb);
    }
}

} // verus!
