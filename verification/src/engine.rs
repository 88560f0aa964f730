//! The identifier engine: prefix tagging, random-suffix generation, parsing
//! and rendering of the canonical string form.

use vstd::prelude::*;

use crate::error::ParseIdError;

verus! {

/// A character of the URL-safe suffix alphabet: `A`-`Z`, `a`-`z`, `0`-`9`,
/// `_` and `-`.
pub open spec fn is_id_char(c: char) -> bool {
    ||| c == '_'
    ||| c == '-'
    ||| ('0' as u32) <= (c as u32) && (c as u32) <= ('9' as u32)
    ||| ('a' as u32) <= (c as u32) && (c as u32) <= ('z' as u32)
    ||| ('A' as u32) <= (c as u32) && (c as u32) <= ('Z' as u32)
}

/// `s` carries the tag `p`: it starts with `p`, followed immediately by the
/// separator `_`. Nothing is required of what comes after the separator.
pub open spec fn tagged(s: Seq<char>, p: Seq<char>) -> bool {
    &&& s.len() > p.len()
    &&& s.subrange(0, p.len() as int) == p
    &&& s[p.len() as int] == '_'
}

/// `s` carries one of the tags in `ps`.
pub open spec fn accepted_by(s: Seq<char>, ps: Seq<Seq<char>>) -> bool {
    exists|i: int| 0 <= i < ps.len() && tagged(s, ps[i])
}

/// The views of a vector of prefix strings, in order.
pub open spec fn prefix_views(ps: Seq<String>) -> Seq<Seq<char>> {
    ps.map_values(|p: String| p@)
}

/// What parsing returns: the candidate itself when it carries one of the
/// accepted tags — never rewritten, aliases included — and nothing otherwise.
pub open spec fn spec_parse(s: Seq<char>, ps: Seq<Seq<char>>) -> Option<Seq<char>> {
    if accepted_by(s, ps) {
        Some(s)
    } else {
        None
    }
}

/// Whether `s` starts with `p` followed immediately by `_`.
pub fn starts_with_tag(s: &str, p: &str) -> (b: bool)
    ensures
        b == tagged(s@, p@),
{
    let n = p.unicode_len();
    let m = s.unicode_len();
    if m <= n {
        return false;
    }
    if s.get_char(n) != '_' {
        return false;
    }
    let mut i: usize = 0;
    while i < n
        invariant
            0 <= i <= n,
            n == p@.len(),
            m == s@.len(),
            m > n,
            s@[n as int] == '_',
            forall|j: int| 0 <= j < i ==> s@[j] == p@[j],
        decreases n - i,
    {
        if s.get_char(i) != p.get_char(i) {
            proof {
                assert(s@.subrange(0, n as int)[i as int] != p@[i as int]);
            }
            return false;
        }
        i += 1;
    }
    proof {
        assert(s@.subrange(0, n as int) =~= p@);
    }
    true
}

/// Whether two strings hold the same characters.
pub fn str_eq(a: &str, b: &str) -> (r: bool)
    ensures
        r == (a@ == b@),
{
    let n = a.unicode_len();
    let m = b.unicode_len();
    if n != m {
        return false;
    }
    let mut i: usize = 0;
    while i < n
        invariant
            0 <= i <= n,
            n == a@.len(),
            n == b@.len(),
            forall|j: int| 0 <= j < i ==> a@[j] == b@[j],
        decreases n - i,
    {
        if a.get_char(i) != b.get_char(i) {
            return false;
        }
        i += 1;
    }
    proof {
        assert(a@ =~= b@);
    }
    true
}

/// Whether `s` carries one of the tags in `prefixes`.
pub fn matches_any(s: &str, prefixes: &Vec<String>) -> (b: bool)
    ensures
        b == accepted_by(s@, prefix_views(prefixes@)),
{
    let mut i: usize = 0;
    while i < prefixes.len()
        invariant
            0 <= i <= prefixes@.len(),
            forall|j: int| 0 <= j < i ==> !tagged(s@, prefix_views(prefixes@)[j]),
        decreases prefixes@.len() - i,
    {
        if starts_with_tag(s, prefixes[i].as_str()) {
            proof {
                assert(tagged(s@, prefix_views(prefixes@)[i as int]));
            }
            return true;
        }
        i += 1;
    }
    false
}

/// The accepted prefixes joined with ` or `, in the order they are checked.
pub open spec fn join_or(ps: Seq<Seq<char>>) -> Seq<char>
    decreases ps.len(),
{
    if ps.len() == 0 {
        Seq::empty()
    } else if ps.len() == 1 {
        ps[0]
    } else {
        join_or(ps.drop_last()) + " or "@ + ps.last()
    }
}

/// The expected-format description a failed parse carries: it names every
/// accepted prefix, primary first.
pub open spec fn expected_desc(ps: Seq<Seq<char>>) -> Seq<char> {
    "id to start with "@ + join_or(ps)
}

proof fn lemma_join_or_step(ps: Seq<Seq<char>>, i: int)
    requires
        0 <= i < ps.len(),
    ensures
        i == 0 ==> join_or(ps.take(1)) == ps[0],
        i >= 1 ==> join_or(ps.take(i + 1)) == join_or(ps.take(i)) + " or "@ + ps[i],
{
    assert(ps.take(i + 1).drop_last() =~= ps.take(i));
    assert(ps.take(i + 1).last() == ps[i]);
}

/// Builds the expected-format description for the given accepted prefixes.
pub fn expected_description(prefixes: &Vec<String>) -> (r: String)
    ensures
        r@ == expected_desc(prefix_views(prefixes@)),
{
    let mut r = String::new();
    r.append("id to start with ");
    proof {
        assert(r@ =~= "id to start with "@ + join_or(prefix_views(prefixes@).take(0)));
    }
    let mut i: usize = 0;
    while i < prefixes.len()
        invariant
            0 <= i <= prefixes@.len(),
            r@ == "id to start with "@ + join_or(prefix_views(prefixes@).take(i as int)),
        decreases prefixes@.len() - i,
    {
        if i > 0 {
            r.append(" or ");
        }
        r.append(prefixes[i].as_str());
        proof {
            lemma_join_or_step(prefix_views(prefixes@), i as int);
            assert(prefix_views(prefixes@)[i as int] == prefixes@[i as int]@);
            assert(r@ =~= "id to start with "@ + join_or(
                prefix_views(prefixes@).take(i as int + 1),
            ));
        }
        i += 1;
    }
    proof {
        assert(prefix_views(prefixes@).take(prefixes@.len() as int) =~= prefix_views(
            prefixes@,
        ));
    }
    r
}

/// Relies on `nanoid::format` with `nanoid::alphabet::SAFE` and the crate's
/// default generator: it returns exactly `size` characters, each drawn from
/// that 64-character URL-safe alphabet.
#[verifier::external_body]
fn random_suffix() -> (r: String)
    ensures
        r@.len() == 21,
        forall|i: int| 0 <= i < r@.len() ==> is_id_char(#[trigger] r@[i]),
{
    nanoid::format(nanoid::rngs::default, &nanoid::alphabet::SAFE, 21)
}

/// Identifier generation and parsing live here.
#[derive(Debug)]
pub struct Id;

impl Id {
    /// Generates a fresh identifier string: `prefix`, the separator `_`,
    /// then 21 random characters of the URL-safe alphabet.
    pub fn generate(prefix: &str) -> (r: String)
        requires
            prefix@.len() <= 4,
        ensures
            tagged(r@, prefix@),
            r@.len() == prefix@.len() + 22,
            r@.subrange(0, prefix@.len() as int) == prefix@,
            forall|i: int|
                prefix@.len() < i < r@.len() ==> is_id_char(#[trigger] r@[i]),
    {
        let suffix = random_suffix();
        let mut r = String::new();
        r.append(prefix);
        r.append("_");
        r.append(suffix.as_str());
        proof {
            reveal_strlit("_");
            assert(r@ =~= prefix@ + "_"@ + suffix@);
            assert(r@.subrange(0, prefix@.len() as int) =~= prefix@);
            assert forall|i: int| prefix@.len() < i < r@.len() implies is_id_char(
                #[trigger] r@[i],
            ) by {
                assert(r@[i] == suffix@[i - prefix@.len() - 1]);
            }
        }
        r
    }

    /// Reconstructs an identifier string. It succeeds exactly when
    /// `candidate` starts with one of `prefixes` followed by `_`, and then
    /// returns the candidate unchanged — an alias prefix is accepted but
    /// never rewritten to the primary one. On failure the error names the
    /// target type (`typename`) and every accepted prefix.
    pub fn parse(candidate: &str, prefixes: &Vec<String>, typename: &str) -> (r: Result<
        String,
        ParseIdError,
    >)
        ensures
            match r {
                Ok(raw) => spec_parse(candidate@, prefix_views(prefixes@)) == Some(raw@)
                    && raw@ == candidate@,
                Err(e) => {
                    &&& spec_parse(candidate@, prefix_views(prefixes@)) is None
                    &&& e.typename@ == typename@
                    &&& e.expected@ == expected_desc(prefix_views(prefixes@))
                },
            },
    {
        if matches_any(candidate, prefixes) {
            Ok(String::from_str(candidate))
        } else {
            Err(
                ParseIdError {
                    typename: String::from_str(typename),
                    expected: expected_description(prefixes),
                },
            )
        }
    }
}

/// Round-trip law: a generated value carries the tag of the prefix it was
/// minted under, and every string carrying an accepted tag parses back to
/// itself, unchanged.
pub proof fn lemma_round_trip(s: Seq<char>, ps: Seq<Seq<char>>, i: int)
    requires
        0 <= i < ps.len(),
        tagged(s, ps[i]),
    ensures
        spec_parse(s, ps) == Some(s),
{
}

/// Idempotent rendering law: rendering is the identity on the string form,
/// so a string that some identifier value already renders to — one accepted
/// by its kind — parses back to exactly that string.
pub proof fn lemma_idempotent_rendering(s: Seq<char>, ps: Seq<Seq<char>>)
    requires
        accepted_by(s, ps),
    ensures
        spec_parse(s, ps) == Some(s),
{
}

/// A prefix with no separator in it, as every identifier tag is.
pub open spec fn plain_prefix(p: Seq<char>) -> bool {
    forall|i: int| 0 <= i < p.len() ==> p[i] != '_'
}

/// Type-discrimination law: two strings tagged with different plain
/// prefixes are never the same string, however their random suffixes fall.
pub proof fn lemma_distinct_tags_distinct_ids(s1: Seq<char>, p1: Seq<char>, s2: Seq<char>, p2: Seq<char>)
    requires
        tagged(s1, p1),
        tagged(s2, p2),
        p1 != p2,
        plain_prefix(p1),
        plain_prefix(p2),
    ensures
        s1 != s2,
{
    if s1 == s2 {
        if p1.len() == p2.len() {
            assert(p1 =~= p2);
        } else if p1.len() < p2.len() {
            assert(p2[p1.len() as int] == s2.subrange(0, p2.len() as int)[p1.len() as int]);
            assert(p2[p1.len() as int] == '_');
        } else {
            assert(p1[p2.len() as int] == s1.subrange(0, p1.len() as int)[p2.len() as int]);
            assert(p1[p2.len() as int] == '_');
        }
    }
}

} // verus!
