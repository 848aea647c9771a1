//! The address and the credentials of the advisory service that suggests
//! transformations.

use vstd::prelude::*;
use vstd::string::*;

verus! {

/// The number of characters of `url` without the `/` at its end.
pub open spec fn trimmed_len(url: Seq<char>) -> nat
    decreases url.len(),
{
    if url.len() > 0 && url.last() == '/' {
        trimmed_len(url.drop_last())
    } else {
        url.len()
    }
}

/// `url` without the `/` at its end, however many there are.
pub open spec fn without_trailing_slashes(url: Seq<char>) -> Seq<char> {
    url.subrange(0, trimmed_len(url) as int)
}

/// The access to the advisory service.
pub struct AIService {
    api_key: String,
    base_url: String,
}

impl AIService {
    /// The key that the service is called with.
    pub closed spec fn key_spec(&self) -> Seq<char> {
        self.api_key@
    }

    /// The address of the service.
    pub closed spec fn url_spec(&self) -> Seq<char> {
        self.base_url@
    }

    /// The access to the service at `base_url` with the key `api_key`.
    pub fn new(api_key: String, base_url: String) -> (r: Self)
        ensures
            r.key_spec() == api_key@,
            r.url_spec() == base_url@,
    {
        AIService { api_key, base_url }
    }

    /// The address that requests go to: the service's address without the
    /// `/` at its end, and `/chat/completions`.
    pub fn endpoint(&self) -> (r: String)
        ensures
            r@ == without_trailing_slashes(self.url_spec()) + "/chat/completions"@,
    {
        let url = self.base_url.as_str();
        let mut n: usize = url.unicode_len();
        proof {
            assert(url@.subrange(0, n as int) =~= url@);
        }
        while n > 0 && url.get_char(n - 1) == '/'
            invariant
                n <= url@.len(),
                trimmed_len(url@) == trimmed_len(url@.subrange(0, n as int)),
            decreases n,
        {
            proof {
                let head = url@.subrange(0, n as int);
                assert(head.last() == '/');
                assert(head.drop_last() =~= url@.subrange(0, n - 1));
            }
            n = n - 1;
        }
        proof {
            let head = url@.subrange(0, n as int);
            if n > 0 {
                assert(head.last() == url@[n - 1]);
            }
            assert(trimmed_len(head) == n);
        }
        let mut out = String::from_str(url.substring_char(0, n));
        out.append("/chat/completions");
        out
    }

    /// The value of the authorization header: `Bearer` and the key.
    pub fn authorization(&self) -> (r: String)
        ensures
            r@ == "Bearer "@ + self.key_spec(),
    {
        let mut out = String::from_str("Bearer ");
        out.append(self.api_key.as_str());
        out
    }
}

/// What `str::trim` makes of `text`.
pub uninterp spec fn trimmed(text: Seq<char>) -> Seq<char>;

/// `text` without the white space at its start and end. Calls `str::trim`,
/// whose result is `trimmed` of the text.
#[verifier::external_body]
fn trim(text: &str) -> (r: String)
    ensures
        r@ == trimmed(text@),
{
    text.trim().to_string()
}

/// Whether `text` holds `part` at the position `at`.
pub open spec fn holds_at(text: Seq<char>, at: int, part: Seq<char>) -> bool {
    0 <= at && at + part.len() <= text.len() && text.subrange(at, at + part.len()) == part
}

/// `text` without `prefix` at its start, however often it stands there.
pub open spec fn without_prefixes(text: Seq<char>, prefix: Seq<char>) -> Seq<char>
    decreases text.len(),
{
    if prefix.len() > 0 && holds_at(text, 0, prefix) {
        without_prefixes(text.subrange(prefix.len() as int, text.len() as int), prefix)
    } else {
        text
    }
}

/// `text` without `suffix` at its end, however often it stands there.
pub open spec fn without_suffixes(text: Seq<char>, suffix: Seq<char>) -> Seq<char>
    decreases text.len(),
{
    if suffix.len() > 0 && holds_at(text, text.len() - suffix.len(), suffix) {
        without_suffixes(text.subrange(0, text.len() - suffix.len()), suffix)
    } else {
        text
    }
}

/// The answer of the service without the code fence that may stand around
/// it: the white space around the answer goes, then every `` ```json `` and
/// every `` ``` `` at its start, every `` ``` `` at its end, and the white
/// space around what is left.
pub open spec fn unfenced(content: Seq<char>) -> Seq<char> {
    trimmed(
        without_suffixes(
            without_prefixes(without_prefixes(trimmed(content), "```json"@), "```"@),
            "```"@,
        ),
    )
}

/// Whether `text` holds `part` at the position `at`.
pub fn has_at(text: &str, at: usize, part: &str) -> (r: bool)
    ensures
        r == holds_at(text@, at as int, part@),
{
    let n: usize = text.unicode_len();
    let m: usize = part.unicode_len();
    if at > n || m > n - at {
        return false;
    }
    let mut i: usize = 0;
    while i < m
        invariant
            i <= m,
            m == part@.len(),
            n == text@.len(),
            at + m <= n,
            forall|j: int| 0 <= j < i ==> text@[at + j] == part@[j],
        decreases m - i,
    {
        if text.get_char(at + i) != part.get_char(i) {
            proof {
                assert(text@.subrange(at as int, at + m)[i as int] == text@[at + i]);
            }
            return false;
        }
        i = i + 1;
    }
    proof {
        assert(text@.subrange(at as int, at + m) =~= part@);
    }
    true
}

/// The answer of the service without its code fence; see `unfenced`.
pub fn strip_code_fence(content: &str) -> (r: String)
    ensures
        r@ == unfenced(content@),
{
    let outer = trim(content);
    let text = outer.as_str();
    let n: usize = text.unicode_len();
    let mut from: usize = 0;
    proof {
        reveal_strlit("```json");
        reveal_strlit("```");
        assert(text@.subrange(0, n as int) =~= text@);
    }
    while has_at(text, from, "```json")
        invariant
            from <= n,
            n == text@.len(),
            "```json"@.len() == 7,
            without_prefixes(text@, "```json"@) == without_prefixes(
                text@.subrange(from as int, n as int),
                "```json"@,
            ),
        decreases n - from,
    {
        proof {
            let rest = text@.subrange(from as int, n as int);
            assert(rest.subrange(0, 7) =~= text@.subrange(from as int, from + 7));
            assert(rest.subrange(7, rest.len() as int) =~= text@.subrange(from + 7, n as int));
        }
        from = from + 7;
    }
    proof {
        let rest = text@.subrange(from as int, n as int);
        if holds_at(rest, 0, "```json"@) {
            assert(rest.subrange(0, 7) =~= text@.subrange(from as int, from + 7));
        }
        assert(without_prefixes(rest, "```json"@) == rest);
    }
    let ghost plain = text@.subrange(from as int, n as int);
    while has_at(text, from, "```")
        invariant
            from <= n,
            n == text@.len(),
            "```"@.len() == 3,
            without_prefixes(plain, "```"@) == without_prefixes(
                text@.subrange(from as int, n as int),
                "```"@,
            ),
        decreases n - from,
    {
        proof {
            let rest = text@.subrange(from as int, n as int);
            assert(rest.subrange(0, 3) =~= text@.subrange(from as int, from + 3));
            assert(rest.subrange(3, rest.len() as int) =~= text@.subrange(from + 3, n as int));
        }
        from = from + 3;
    }
    proof {
        let rest = text@.subrange(from as int, n as int);
        if holds_at(rest, 0, "```"@) {
            assert(rest.subrange(0, 3) =~= text@.subrange(from as int, from + 3));
        }
        assert(without_prefixes(rest, "```"@) == rest);
    }
    let ghost open = text@.subrange(from as int, n as int);
    let mut to: usize = n;
    while to - from >= 3 && has_at(text, to - 3, "```")
        invariant
            from <= to <= n,
            n == text@.len(),
            "```"@.len() == 3,
            without_suffixes(open, "```"@) == without_suffixes(
                text@.subrange(from as int, to as int),
                "```"@,
            ),
        decreases to - from,
    {
        proof {
            let rest = text@.subrange(from as int, to as int);
            assert(rest.subrange(rest.len() - 3, rest.len() as int) =~= text@.subrange(
                to - 3,
                to as int,
            ));
            assert(rest.subrange(0, rest.len() - 3) =~= text@.subrange(from as int, to - 3));
        }
        to = to - 3;
    }
    proof {
        let rest = text@.subrange(from as int, to as int);
        if holds_at(rest, rest.len() - 3, "```"@) {
            assert(rest.subrange(rest.len() - 3, rest.len() as int) =~= text@.subrange(
                to - 3,
                to as int,
            ));
        }
        assert(without_suffixes(rest, "```"@) == rest);
    }
    trim(text.substring_char(from, to))
}

} // verus!
