//! Span location: given raw source text and a literal token known to appear
//! in it as a JSON string value, find the character range of the token's
//! first quoted occurrence so a diagnostic label can point at it.

use vstd::prelude::*;
use vstd::string::*;

verus! {

/// `needle` occurs in `hay` starting at character position `at`.
pub open spec fn occurs_at(hay: Seq<char>, needle: Seq<char>, at: int) -> bool {
    &&& 0 <= at
    &&& at + needle.len() <= hay.len()
    &&& hay.subrange(at, at + needle.len()) == needle
}

/// `needle` occurs somewhere in `hay`.
pub open spec fn occurs(hay: Seq<char>, needle: Seq<char>) -> bool {
    exists|at: int| occurs_at(hay, needle, at)
}

/// `at` is the position of the first occurrence of `needle` in `hay`.
pub open spec fn first_occurrence_at(hay: Seq<char>, needle: Seq<char>, at: int) -> bool {
    &&& occurs_at(hay, needle, at)
    &&& forall|p: int| 0 <= p < at ==> !occurs_at(hay, needle, p)
}

/// The quoting transform applied to a token before searching for it: the
/// token as it appears in source text as a JSON string value, wrapped in
/// literal double quotes.
pub open spec fn spec_quoted(token: Seq<char>) -> Seq<char> {
    seq!['"'] + token + seq!['"']
}

/// Executable form of the quoting transform.
pub fn quoted(input: &str) -> (r: String)
    ensures
        r@ == spec_quoted(input@),
{
    proof {
        reveal_strlit("\"");
        assert("\""@ =~= seq!['"']);
    }
    let mut r = String::from_str("\"");
    r.append(input);
    r.append("\"");
    proof {
        assert(r@ =~= spec_quoted(input@));
    }
    r
}

/// Character-by-character equality of two string slices.
pub fn str_eq(a: &str, b: &str) -> (r: bool)
    ensures
        r == (a@ == b@),
{
    let n = a.unicode_len();
    if n != b.unicode_len() {
        return false;
    }
    let mut i: usize = 0;
    while i < n
        invariant
            n == a@.len(),
            n == b@.len(),
            0 <= i <= n,
            forall|k: int| 0 <= k < i ==> a@[k] == b@[k],
        decreases n - i,
    {
        if a.get_char(i) != b.get_char(i) {
            return false;
        }
        i += 1;
    }
    proof {
        assert(a@ =~= b@);
    }
    true
}

/// Whether `needle` occurs in `source` at the given start position.
fn match_at(source: &str, needle: &str, start: usize) -> (r: bool)
    requires
        start + needle@.len() <= source@.len(),
    ensures
        r == occurs_at(source@, needle@, start as int),
{
    let n = needle.unicode_len();
    let m = source.unicode_len();
    let mut j: usize = 0;
    while j < n
        invariant
            n == needle@.len(),
            m == source@.len(),
            start + n <= m,
            0 <= j <= n,
            forall|k: int| 0 <= k < j ==> source@[start + k] == needle@[k],
        decreases n - j,
    {
        if source.get_char(start + j) != needle.get_char(j) {
            proof {
                if occurs_at(source@, needle@, start as int) {
                    assert(source@.subrange(
                        start as int,
                        start + needle@.len(),
                    )[j as int] == source@[start + j]);
                }
            }
            return false;
        }
        j += 1;
    }
    proof {
        assert(source@.subrange(start as int, start + needle@.len()) =~= needle@);
    }
    true
}

/// Finds the character range of the first occurrence of `token`, wrapped in
/// double quotes, within `source`. Callers must only pass tokens known to
/// occur verbatim (quoted) in the source; the range returned always covers
/// exactly the quoted token, so slicing the source with it yields the token
/// in quotes again.
pub fn locate(source: &str, token: &str) -> (r: (usize, usize))
    requires
        occurs(source@, spec_quoted(token@)),
    ensures
        first_occurrence_at(source@, spec_quoted(token@), r.0 as int),
        r.1 == r.0 + spec_quoted(token@).len(),
        source@.subrange(r.0 as int, r.1 as int) == spec_quoted(token@),
{
    let needle = quoted(token);
    let needle_str = needle.as_str();
    let n = needle_str.unicode_len();
    let m = source.unicode_len();
    proof {
        let w = choose|at: int| occurs_at(source@, spec_quoted(token@), at);
        assert(n <= m);
    }
    let mut start: usize = 0;
    loop
        invariant
            needle_str@ == spec_quoted(token@),
            n == spec_quoted(token@).len(),
            m == source@.len(),
            occurs(source@, spec_quoted(token@)),
            start + n <= m,
            forall|p: int| 0 <= p < start ==> !occurs_at(source@, spec_quoted(token@), p),
        decreases m - start,
    {
        if match_at(source, needle_str, start) {
            return (start, start + n);
        }
        proof {
            let w = choose|at: int| occurs_at(source@, spec_quoted(token@), at);
            assert(w > start);
        }
        start += 1;
    }
}

} // verus!
