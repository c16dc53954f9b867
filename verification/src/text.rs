//! Character-level string utilities: prefix tests, substring containment,
//! and joining a list of messages with a separator.

use vstd::prelude::*;
use vstd::string::StrSliceExecFns;
use vstd::string::StringExecFns;

verus! {

/// `p` is a prefix of `s`.
pub open spec fn has_prefix(s: Seq<char>, p: Seq<char>) -> bool {
    p.len() <= s.len() && s.subrange(0, p.len() as int) == p
}

/// `p` occurs in `s` starting at position `i`.
pub open spec fn matches_at(s: Seq<char>, i: int, p: Seq<char>) -> bool {
    0 <= i && i + p.len() <= s.len() && s.subrange(i, i + p.len()) == p
}

/// `p` occurs somewhere in `s`.
pub open spec fn contains_seq(s: Seq<char>, p: Seq<char>) -> bool {
    exists|i: int| matches_at(s, i, p)
}

/// Whether the characters of `s` from position `offset` on begin with `p`.
pub fn str_has_prefix_from(s: &str, offset: usize, p: &str) -> (r: bool)
    requires
        offset <= s@.len(),
    ensures
        r == has_prefix(s@.skip(offset as int), p@),
{
    let slen = s.unicode_len();
    let plen = p.unicode_len();
    if plen > slen - offset {
        return false;
    }
    let mut j: usize = 0;
    while j < plen
        invariant
            slen == s@.len(),
            plen == p@.len(),
            offset + plen <= slen,
            j <= plen,
            forall|k: int| 0 <= k < j ==> s@[offset + k] == p@[k],
        decreases plen - j,
    {
        if s.get_char(offset + j) != p.get_char(j) {
            proof {
                let t = s@.skip(offset as int);
                if has_prefix(t, p@) {
                    assert(t.subrange(0, plen as int)[j as int] == p@[j as int]);
                    assert(t[j as int] == s@[offset + j]);
                }
            }
            return false;
        }
        j += 1;
    }
    proof {
        assert(s@.skip(offset as int).subrange(0, plen as int) =~= p@);
    }
    true
}

/// Whether `p` occurs anywhere in `s`.
pub fn str_contains(s: &str, p: &str) -> (r: bool)
    ensures
        r == contains_seq(s@, p@),
{
    let slen = s.unicode_len();
    let plen = p.unicode_len();
    if plen > slen {
        proof {
            assert(forall|i: int| !matches_at(s@, i, p@));
        }
        return false;
    }
    if plen == 0 {
        proof {
            assert(s@.subrange(0, 0) =~= p@);
            assert(matches_at(s@, 0, p@));
        }
        return true;
    }
    let mut i: usize = 0;
    while i <= slen - plen
        invariant
            slen == s@.len(),
            plen == p@.len(),
            1 <= plen <= slen,
            i <= slen - plen + 1,
            forall|k: int| 0 <= k < i ==> !matches_at(s@, k, p@),
        decreases slen - plen - i + 1,
    {
        if str_has_prefix_from(s, i, p) {
            proof {
                let t = s@.skip(i as int);
                assert(t.subrange(0, plen as int) =~= s@.subrange(i as int, i + plen as int));
                assert(matches_at(s@, i as int, p@));
            }
            return true;
        }
        proof {
            let t = s@.skip(i as int);
            if matches_at(s@, i as int, p@) {
                assert(t.subrange(0, plen as int) =~= s@.subrange(i as int, i + plen as int));
            }
        }
        i += 1;
    }
    proof {
        assert forall|k: int| !matches_at(s@, k, p@) by {
            if matches_at(s@, k, p@) {
                assert(0 <= k <= slen - plen);
            }
        }
    }
    false
}

/// The parts joined in order, with `sep` between consecutive parts.
pub open spec fn join_with(parts: Seq<Seq<char>>, sep: Seq<char>) -> Seq<char>
    decreases parts.len(),
{
    if parts.len() == 0 {
        Seq::empty()
    } else if parts.len() == 1 {
        parts[0]
    } else {
        parts[0] + sep + join_with(parts.drop_first(), sep)
    }
}

/// Appending one more part extends the joined text by a separator and the part.
pub proof fn lemma_join_with_push(parts: Seq<Seq<char>>, sep: Seq<char>, m: Seq<char>)
    ensures
        join_with(parts.push(m), sep) == if parts.len() == 0 {
            m
        } else {
            join_with(parts, sep) + sep + m
        },
    decreases parts.len(),
{
    if parts.len() == 0 {
        assert(parts.push(m)[0] == m);
    } else {
        lemma_join_with_push(parts.drop_first(), sep, m);
        assert(parts.push(m).drop_first() =~= parts.drop_first().push(m));
        assert(parts.push(m)[0] == parts[0]);
        if parts.len() == 1 {
            assert(parts.drop_first().len() == 0);
        } else {
            assert(join_with(parts, sep) == parts[0] + sep + join_with(parts.drop_first(), sep));
        }
    }
}

/// The parts joined in order with `sep` between consecutive parts.
pub fn join_strings(parts: &Vec<String>, sep: &str) -> (r: String)
    ensures
        r@ == join_with(parts.deep_view(), sep@),
{
    let mut r = String::new();
    let mut i: usize = 0;
    while i < parts.len()
        invariant
            i <= parts.len(),
            r@ == join_with(parts.deep_view().take(i as int), sep@),
        decreases parts.len() - i,
    {
        if i > 0 {
            r.append(sep);
        }
        r.append(parts[i].as_str());
        proof {
            let dv = parts.deep_view();
            lemma_join_with_push(dv.take(i as int), sep@, dv[i as int]);
            assert(dv.take(i + 1) =~= dv.take(i as int).push(dv[i as int]));
        }
        i += 1;
    }
    proof {
        assert(parts.deep_view().take(parts@.len() as int) =~= parts.deep_view());
    }
    r
}

} // verus!
