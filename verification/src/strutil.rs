//! Verified character-level string utilities: equality, first-occurrence
//! search, separator splitting, key=value pair parsing, substring search,
//! whitespace trimming, and a trusted UTF-8 decoder.

use vstd::prelude::*;
use vstd::string::StrSliceExecFns;
use vstd::utf8::{decode_utf8, valid_utf8};

verus! {

/// Compares two string slices character by character.
pub fn str_eq(a: &str, b: &str) -> (r: bool)
    ensures
        r == (a@ == b@),
{
    let na = a.unicode_len();
    let nb = b.unicode_len();
    if na != nb {
        return false;
    }
    let mut i: usize = 0;
    while i < na
        invariant
            na == a@.len(),
            na == b@.len(),
            i <= na,
            forall|j: int| 0 <= j < i ==> a@[j] == b@[j],
        decreases na - i,
    {
        if a.get_char(i) != b.get_char(i) {
            return false;
        }
        i += 1;
    }
    proof {
        assert(a@ =~= b@);
    }
    true
}

/// Index of the first occurrence of `c` in `s`, if any.
pub open spec fn find_char(s: Seq<char>, c: char) -> Option<int>
    decreases s.len(),
{
    if s.len() == 0 {
        None
    } else if s[0] == c {
        Some(0 as int)
    } else {
        match find_char(s.drop_first(), c) {
            None => None,
            Some(i) => Some(i + 1),
        }
    }
}

/// `find_char` reports the first occurrence: the index is in range, holds
/// `c`, and nothing before it does; `None` means `c` does not occur.
pub proof fn lemma_find_char(s: Seq<char>, c: char)
    ensures
        match find_char(s, c) {
            Some(i) => 0 <= i < s.len() && s[i] == c && (forall|j: int| 0 <= j < i ==> s[j] != c),
            None => forall|j: int| 0 <= j < s.len() ==> s[j] != c,
        },
    decreases s.len(),
{
    if s.len() == 0 {
    } else if s[0] == c {
    } else {
        lemma_find_char(s.drop_first(), c);
        assert forall|j: int| 1 <= j < s.len() implies s[j] == s.drop_first()[j - 1] by {}
    }
}

/// Finds the first occurrence of `c` in `s`.
pub fn find_char_in(s: &str, c: char) -> (r: Option<usize>)
    ensures
        match r {
            Some(i) => find_char(s@, c) == Some(i as int),
            None => find_char(s@, c) is None,
        },
    decreases s@.len(),
{
    let n = s.unicode_len();
    if n == 0 {
        None
    } else if s.get_char(0) == c {
        Some(0)
    } else {
        let tail = s.substring_char(1, n);
        proof {
            assert(tail@ =~= s@.drop_first());
        }
        match find_char_in(tail, c) {
            None => None,
            Some(i) => {
                proof {
                    lemma_find_char(tail@, c);
                }
                Some(i + 1)
            },
        }
    }
}

/// The segments of `s` between occurrences of the separator `c`. Splitting
/// the empty string yields one empty segment.
pub open spec fn split_on(s: Seq<char>, c: char) -> Seq<Seq<char>>
    decreases s.len(),
{
    match find_char(s, c) {
        None => seq![s],
        Some(i) => if 0 <= i < s.len() {
            // find_char never reports an index out of range
            seq![s.take(i)] + split_on(s.skip(i + 1), c)
        } else {
            seq![s]
        },
    }
}

/// Splits `s` on every occurrence of `c`.
pub fn split_str(s: &str, c: char) -> (parts: Vec<String>)
    ensures
        parts@.map_values(|p: String| p@) == split_on(s@, c),
        parts@.len() > 0,
    decreases s@.len(),
{
    let n = s.unicode_len();
    match find_char_in(s, c) {
        None => {
            let mut v: Vec<String> = Vec::new();
            v.push(s.to_owned());
            proof {
                assert(v@.map_values(|p: String| p@) =~= seq![s@]);
            }
            v
        },
        Some(i) => {
            proof {
                lemma_find_char(s@, c);
            }
            let head = s.substring_char(0, i);
            let tail = s.substring_char(i + 1, n);
            let mut rest = split_str(tail, c);
            rest.insert(0, head.to_owned());
            proof {
                assert(head@ =~= s@.take(i as int));
                assert(tail@ =~= s@.skip(i + 1));
                assert(rest@.map_values(|p: String| p@) =~= seq![s@.take(i as int)]
                    + split_on(s@.skip(i + 1), c));
            }
            rest
        },
    }
}

/// The key and value of a `key=value` segment, split at the first `=`;
/// `None` when the segment holds no `=`.
pub open spec fn pair_of(seg: Seq<char>) -> Option<(Seq<char>, Seq<char>)> {
    match find_char(seg, '=') {
        None => None,
        Some(i) => Some((seg.take(i), seg.skip(i + 1))),
    }
}

/// Splits a segment at its first `=` into key and value.
pub fn split_pair(seg: &str) -> (r: Option<(String, String)>)
    ensures
        match r {
            Some(p) => pair_of(seg@) == Some((p.0@, p.1@)),
            None => pair_of(seg@) is None,
        },
{
    let n = seg.unicode_len();
    match find_char_in(seg, '=') {
        None => None,
        Some(i) => {
            proof {
                lemma_find_char(seg@, '=');
            }
            let key = seg.substring_char(0, i);
            let value = seg.substring_char(i + 1, n);
            proof {
                assert(key@ =~= seg@.take(i as int));
                assert(value@ =~= seg@.skip(i + 1));
            }
            Some((key.to_owned(), value.to_owned()))
        },
    }
}

/// The key/value pairs of a list of segments, in order; segments without an
/// `=` are dropped silently.
pub open spec fn pairs_of_segments(segs: Seq<Seq<char>>) -> Seq<(Seq<char>, Seq<char>)>
    decreases segs.len(),
{
    if segs.len() == 0 {
        Seq::empty()
    } else {
        match pair_of(segs[0]) {
            None => pairs_of_segments(segs.drop_first()),
            Some(p) => seq![p] + pairs_of_segments(segs.drop_first()),
        }
    }
}

/// The key/value pairs of a raw `key=value&key=value` string, in order of
/// occurrence; no percent-decoding is performed.
pub open spec fn kv_pairs(s: Seq<char>) -> Seq<(Seq<char>, Seq<char>)> {
    pairs_of_segments(split_on(s, '&'))
}

/// Parses a raw `key=value&key=value` string into its pairs, in order.
/// Segments lacking an `=` are dropped; no percent-decoding is performed.
pub fn parse_kv_pairs(s: &str) -> (r: Vec<(String, String)>)
    ensures
        r@.map_values(|p: (String, String)| (p.0@, p.1@)) == kv_pairs(s@),
{
    let parts = split_str(s, '&');
    let ghost segs: Seq<Seq<char>> = parts@.map_values(|p: String| p@);
    let mut out: Vec<(String, String)> = Vec::new();
    let mut i: usize = 0;
    proof {
        assert(segs.skip(0) =~= segs);
        assert(out@.map_values(|p: (String, String)| (p.0@, p.1@))
            =~= Seq::<(Seq<char>, Seq<char>)>::empty());
    }
    while i < parts.len()
        invariant
            i <= parts.len(),
            segs == parts@.map_values(|p: String| p@),
            out@.map_values(|p: (String, String)| (p.0@, p.1@))
                + pairs_of_segments(segs.skip(i as int)) == kv_pairs(s@),
        decreases parts.len() - i,
    {
        let ghost out0 = out@.map_values(|p: (String, String)| (p.0@, p.1@));
        proof {
            assert(segs.skip(i as int).len() > 0);
            assert(segs.skip(i as int)[0] == parts@[i as int]@);
            assert(segs.skip(i as int).drop_first() =~= segs.skip(i + 1));
        }
        match split_pair(parts[i].as_str()) {
            Some(p) => {
                out.push(p);
                proof {
                    assert(out@.map_values(|p: (String, String)| (p.0@, p.1@)) =~= out0
                        + seq![(out@.last().0@, out@.last().1@)]);
                    assert(out0 + seq![(out@.last().0@, out@.last().1@)]
                        + pairs_of_segments(segs.skip(i + 1)) =~= kv_pairs(s@));
                }
            },
            None => {},
        }
        i += 1;
    }
    proof {
        assert(segs.skip(parts.len() as int) =~= Seq::<Seq<char>>::empty());
        assert(out@.map_values(|p: (String, String)| (p.0@, p.1@)) =~= kv_pairs(s@));
    }
    out
}

/// Whether `n` occurs in `h` as a contiguous substring.
pub open spec fn contains_seq(h: Seq<char>, n: Seq<char>) -> bool {
    exists|i: int| 0 <= i <= h.len() - n.len() && #[trigger] h.subrange(i, i + n.len()) == n
}

/// Case-sensitive substring search.
pub fn str_contains(h: &str, n: &str) -> (r: bool)
    ensures
        r == contains_seq(h@, n@),
{
    let hl = h.unicode_len();
    let nl = n.unicode_len();
    if nl > hl {
        return false;
    }
    if nl == 0 {
        proof {
            assert(h@.subrange(0, 0 + n@.len() as int) =~= n@);
        }
        return true;
    }
    let mut i: usize = 0;
    while i <= hl - nl
        invariant
            0 < nl <= hl,
            hl == h@.len(),
            nl == n@.len(),
            i <= hl - nl + 1,
            forall|j: int| 0 <= j < i ==> #[trigger] h@.subrange(j, j + n@.len()) != n@,
        decreases hl - i,
    {
        let w = h.substring_char(i, i + nl);
        if str_eq(w, n) {
            proof {
                assert(h@.subrange(i as int, i + n@.len()) == n@);
            }
            return true;
        }
        i += 1;
    }
    false
}

/// Whether `c` is one of the ASCII whitespace characters this crate trims.
pub open spec fn is_space(c: char) -> bool {
    c == ' ' || c == '\t' || c == '\r' || c == '\n'
}

/// Runtime test for [`is_space`].
pub fn is_space_c(c: char) -> (r: bool)
    ensures
        r == is_space(c),
{
    c == ' ' || c == '\t' || c == '\r' || c == '\n'
}

/// `s` with leading whitespace removed.
pub open spec fn trim_front(s: Seq<char>) -> Seq<char>
    decreases s.len(),
{
    if s.len() > 0 && is_space(s[0]) {
        trim_front(s.drop_first())
    } else {
        s
    }
}

/// `s` with trailing whitespace removed.
pub open spec fn trim_back(s: Seq<char>) -> Seq<char>
    decreases s.len(),
{
    if s.len() > 0 && is_space(s.last()) {
        trim_back(s.drop_last())
    } else {
        s
    }
}

/// `s` with surrounding whitespace removed.
pub open spec fn trim_spec(s: Seq<char>) -> Seq<char> {
    trim_back(trim_front(s))
}

/// Removes surrounding ASCII whitespace.
pub fn str_trim(s: &str) -> (r: String)
    ensures
        r@ == trim_spec(s@),
{
    let n = s.unicode_len();
    let mut a: usize = 0;
    proof {
        assert(s@.skip(0) =~= s@);
    }
    while a < n
        invariant
            a <= n,
            n == s@.len(),
            trim_front(s@) == trim_front(s@.skip(a as int)),
        ensures
            a <= n,
            n == s@.len(),
            trim_front(s@) == s@.skip(a as int),
        decreases n - a,
    {
        if !is_space_c(s.get_char(a)) {
            proof {
                assert(s@.skip(a as int)[0] == s@[a as int]);
            }
            break;
        }
        proof {
            assert(s@.skip(a as int).drop_first() =~= s@.skip(a + 1));
        }
        a += 1;
    }
    proof {
        if a == n {
            assert(s@.skip(a as int) =~= Seq::<char>::empty());
        }
    }
    let ghost t: Seq<char> = s@.skip(a as int);
    let mut b: usize = n;
    proof {
        assert(t.take(n - a) =~= t);
    }
    while b > a
        invariant
            a <= b <= n,
            n == s@.len(),
            t == s@.skip(a as int),
            trim_back(t) == trim_back(t.take(b - a)),
        ensures
            a <= b <= n,
            trim_back(t) == t.take(b - a),
        decreases b,
    {
        proof {
            assert(t.take(b - a).len() == b - a);
            assert(t.take(b - a).last() == s@[b - 1]);
        }
        if !is_space_c(s.get_char(b - 1)) {
            break;
        }
        proof {
            assert(t.take(b - a).drop_last() =~= t.take(b - 1 - a));
        }
        b -= 1;
    }
    proof {
        if b == a {
            assert(t.take(0) =~= Seq::<char>::empty());
        }
    }
    let r = s.substring_char(a, b).to_owned();
    proof {
        assert(r@ =~= t.take(b - a));
    }
    r
}

/// Relies on `String::from_utf8`: decoding succeeds exactly on valid UTF-8
/// and yields the characters those bytes encode.
#[verifier::external_body]
pub(crate) fn utf8_to_string(bytes: Vec<u8>) -> (r: Option<String>)
    ensures
        r is Some <==> valid_utf8(bytes@),
        r matches Some(s) ==> s@ == decode_utf8(bytes@),
{
    match String::from_utf8(bytes) {
        Ok(s) => Some(s),
        Err(_) => None,
    }
}

} // verus!
