//! Verified helpers for the string manipulation the config and index parsers
//! rely on: prefix/suffix tests and removal, character search, and trimming.

use vstd::prelude::*;
use vstd::string::StrSliceExecFns;

verus! {

/// `p` is a prefix of `s`.
pub open spec fn is_prefix_of(p: Seq<char>, s: Seq<char>) -> bool {
    p.len() <= s.len() && s.subrange(0, p.len() as int) == p
}

/// `p` is a suffix of `s`.
pub open spec fn is_suffix_of(p: Seq<char>, s: Seq<char>) -> bool {
    p.len() <= s.len() && s.subrange(s.len() - p.len(), s.len() as int) == p
}

pub fn starts_with(s: &str, p: &str) -> (r: bool)
    ensures
        r == is_prefix_of(p@, s@),
{
    let sl = s.unicode_len();
    let pl = p.unicode_len();
    if pl > sl {
        return false;
    }
    let mut i: usize = 0;
    while i < pl
        invariant
            i <= pl,
            pl <= sl,
            pl == p@.len(),
            sl == s@.len(),
            forall|j: int| 0 <= j < i ==> s@[j] == p@[j],
        decreases pl - i,
    {
        if s.get_char(i) != p.get_char(i) {
            assert(s@.subrange(0, pl as int)[i as int] != p@[i as int]);
            return false;
        }
        i += 1;
    }
    assert(s@.subrange(0, pl as int) =~= p@);
    true
}

pub fn ends_with(s: &str, p: &str) -> (r: bool)
    ensures
        r == is_suffix_of(p@, s@),
{
    let sl = s.unicode_len();
    let pl = p.unicode_len();
    if pl > sl {
        return false;
    }
    let off = sl - pl;
    let mut i: usize = 0;
    while i < pl
        invariant
            i <= pl,
            pl <= sl,
            off == sl - pl,
            pl == p@.len(),
            sl == s@.len(),
            forall|j: int| 0 <= j < i ==> s@[off + j] == p@[j],
        decreases pl - i,
    {
        if s.get_char(off + i) != p.get_char(i) {
            assert(s@.subrange(s@.len() - p@.len(), s@.len() as int)[i as int] != p@[i as int]);
            return false;
        }
        i += 1;
    }
    assert(s@.subrange(s@.len() - p@.len(), s@.len() as int) =~= p@);
    true
}

/// Remove the prefix `p` from `s`, or return `None` if `s` does not start
/// with `p`.
pub fn strip_prefix(s: &str, p: &str) -> (r: Option<String>)
    ensures
        match r {
            Some(t) => is_prefix_of(p@, s@) && t@ == s@.skip(p@.len() as int),
            None => !is_prefix_of(p@, s@),
        },
{
    if starts_with(s, p) {
        let sub = s.substring_char(p.unicode_len(), s.unicode_len());
        assert(sub@ =~= s@.skip(p@.len() as int));
        Some(sub.to_owned())
    } else {
        None
    }
}

/// Remove the suffix `p` from `s`, or return `None` if `s` does not end
/// with `p`.
pub fn strip_suffix(s: &str, p: &str) -> (r: Option<String>)
    ensures
        match r {
            Some(t) => is_suffix_of(p@, s@) && t@ == s@.take(s@.len() - p@.len()),
            None => !is_suffix_of(p@, s@),
        },
{
    if ends_with(s, p) {
        let sub = s.substring_char(0, s.unicode_len() - p.unicode_len());
        assert(sub@ =~= s@.take(s@.len() - p@.len()));
        Some(sub.to_owned())
    } else {
        None
    }
}

/// Index of the first occurrence of `c` in `s`, if any.
pub fn find_char(s: &str, c: char) -> (r: Option<usize>)
    ensures
        match r {
            Some(i) => {
                &&& i < s@.len()
                &&& s@[i as int] == c
                &&& forall|j: int| 0 <= j < i ==> s@[j] != c
            },
            None => forall|j: int| 0 <= j < s@.len() ==> s@[j] != c,
        },
{
    let len = s.unicode_len();
    let mut i: usize = 0;
    while i < len
        invariant
            i <= len,
            len == s@.len(),
            forall|j: int| 0 <= j < i ==> s@[j] != c,
        decreases len - i,
    {
        if s.get_char(i) == c {
            return Some(i);
        }
        i += 1;
    }
    None
}

pub fn contains_char(s: &str, c: char) -> (r: bool)
    ensures
        r == s@.contains(c),
{
    let r = find_char(s, c);
    match r {
        Some(i) => {
            assert(s@.contains(c));
            true
        },
        None => {
            assert(forall|j: int| 0 <= j < s@.len() ==> s@[j] != c);
            false
        },
    }
}

/// Split `s` at the first occurrence of `c`: the part before and the part
/// after the separator, which is dropped. `None` if `c` does not occur.
pub fn split_once_char(s: &str, c: char) -> (r: Option<(String, String)>)
    ensures
        match r {
            Some(p) => {
                &&& spec_find_char(s@, c) >= 0
                &&& p.0@ == s@.take(spec_find_char(s@, c))
                &&& p.1@ == s@.skip(spec_find_char(s@, c) + 1)
            },
            None => spec_find_char(s@, c) == -1,
        },
{
    proof {
        lemma_find_char_char(s@, c);
    }
    let len = s.unicode_len();
    match find_char(s, c) {
        Some(i) => {
            assert(spec_find_char(s@, c) == i);
            let before = s.substring_char(0, i);
            let after = s.substring_char(i + 1, len);
            assert(before@ =~= s@.take(i as int));
            assert(after@ =~= s@.skip(i as int + 1));
            Some((before.to_owned(), after.to_owned()))
        },
        None => {
            None
        },
    }
}

/// The whitespace characters `trim` removes.
pub open spec fn is_space(c: char) -> bool {
    c == ' ' || c == '\t' || c == '\n' || c == '\r'
}

fn is_space_exec(c: char) -> (r: bool)
    ensures
        r == is_space(c),
{
    c == ' ' || c == '\t' || c == '\n' || c == '\r'
}

pub open spec fn spec_trim_start(s: Seq<char>) -> Seq<char>
    decreases s.len(),
{
    if s.len() > 0 && is_space(s[0]) {
        spec_trim_start(s.skip(1))
    } else {
        s
    }
}

pub open spec fn spec_trim_end(s: Seq<char>) -> Seq<char>
    decreases s.len(),
{
    if s.len() > 0 && is_space(s[s.len() - 1]) {
        spec_trim_end(s.take(s.len() - 1))
    } else {
        s
    }
}

/// `s` with leading and trailing whitespace removed.
pub open spec fn spec_trim(s: Seq<char>) -> Seq<char> {
    spec_trim_end(spec_trim_start(s))
}

proof fn lemma_trim_start_at(s: Seq<char>, i: int)
    requires
        0 <= i <= s.len(),
        forall|k: int| 0 <= k < i ==> is_space(s[k]),
        i == s.len() || !is_space(s[i]),
    ensures
        spec_trim_start(s) == s.skip(i),
    decreases i,
{
    if i == 0 {
        assert(s.skip(0) =~= s);
    } else {
        lemma_trim_start_at(s.skip(1), i - 1);
        assert(s.skip(1).skip(i - 1) =~= s.skip(i));
    }
}

proof fn lemma_trim_end_at(s: Seq<char>, j: int)
    requires
        0 <= j <= s.len(),
        forall|k: int| j <= k < s.len() ==> is_space(s[k]),
        j == 0 || !is_space(s[j - 1]),
    ensures
        spec_trim_end(s) == s.take(j),
    decreases s.len() - j,
{
    if j == s.len() {
        assert(s.take(j) =~= s);
    } else {
        lemma_trim_end_at(s.take(s.len() - 1), j);
        assert(s.take(s.len() - 1).take(j) =~= s.take(j));
    }
}

/// Remove leading and trailing whitespace from `s`.
pub fn trim(s: &str) -> (r: String)
    ensures
        r@ == spec_trim(s@),
{
    let len = s.unicode_len();
    let mut a: usize = 0;
    while a < len && is_space_exec(s.get_char(a))
        invariant
            a <= len,
            len == s@.len(),
            forall|k: int| 0 <= k < a ==> is_space(s@[k]),
        decreases len - a,
    {
        a += 1;
    }
    let mut b: usize = len;
    while b > a && is_space_exec(s.get_char(b - 1))
        invariant
            a <= b <= len,
            len == s@.len(),
            forall|k: int| b <= k < len ==> is_space(s@[k]),
        decreases b,
    {
        b -= 1;
    }
    let sub = s.substring_char(a, b);
    proof {
        lemma_trim_start_at(s@, a as int);
        let t = s@.skip(a as int);
        lemma_trim_end_at(t, b - a);
        assert(t.take(b - a) =~= s@.subrange(a as int, b as int));
    }
    sub.to_owned()
}

/// The views of two optional strings agree.
pub open spec fn opt_view_eq(a: Option<Seq<char>>, b: Option<Seq<char>>) -> bool {
    match (a, b) {
        (Option::None, Option::None) => true,
        (Option::Some(x), Option::Some(y)) => x == y,
        _ => false,
    }
}

/// The view of an optional string.
pub open spec fn opt_view(o: Option<String>) -> Option<Seq<char>> {
    match o {
        Option::None => Option::None,
        Option::Some(s) => Option::Some(s@),
    }
}

/// Compare two optional strings by contents.
pub fn opt_str_eq(a: &Option<String>, b: &Option<String>) -> (r: bool)
    ensures
        r == opt_view_eq(opt_view(*a), opt_view(*b)),
{
    match (a, b) {
        (Option::None, Option::None) => true,
        (Option::Some(x), Option::Some(y)) => x.eq(y),
        _ => false,
    }
}

} // verus!

use vstd::prelude::*;

verus! {

/// Compare two strings by contents.
pub fn str_eq(a: &str, b: &str) -> (r: bool)
    ensures
        r == (a@ == b@),
{
    let al = a.unicode_len();
    let bl = b.unicode_len();
    if al != bl {
        return false;
    }
    let mut i: usize = 0;
    while i < al
        invariant
            i <= al,
            al == a@.len(),
            al == b@.len(),
            forall|j: int| 0 <= j < i ==> a@[j] == b@[j],
        decreases al - i,
    {
        if a.get_char(i) != b.get_char(i) {
            return false;
        }
        i += 1;
    }
    assert(a@ =~= b@);
    true
}

} // verus!

verus! {

/// Copy an optional string.
pub fn clone_opt(o: &Option<String>) -> (r: Option<String>)
    ensures
        r == *o,
{
    match o {
        Option::Some(s) => Option::Some(s.clone()),
        Option::None => Option::None,
    }
}

} // verus!

verus! {

/// Index of the first occurrence of `c` in `s`, or `-1` if there is none.
pub open spec fn spec_find_char(s: Seq<char>, c: char) -> int
    decreases s.len(),
{
    if s.len() == 0 {
        -1
    } else if s[0] == c {
        0
    } else {
        let r = spec_find_char(s.skip(1), c);
        if r < 0 {
            -1
        } else {
            r + 1
        }
    }
}

/// What [`spec_find_char`] returns: either `-1` and the character does not
/// occur, or the first position where it occurs.
pub proof fn lemma_find_char_char(s: Seq<char>, c: char)
    ensures
        ({
            let r = spec_find_char(s, c);
            ||| (r == -1 && forall|j: int| 0 <= j < s.len() ==> s[j] != c)
            ||| (0 <= r < s.len() && s[r] == c && forall|j: int| 0 <= j < r ==> s[j] != c)
        }),
    decreases s.len(),
{
    if s.len() > 0 && s[0] != c {
        lemma_find_char_char(s.skip(1), c);
        let rr = spec_find_char(s.skip(1), c);
        if rr >= 0 {
            assert(spec_find_char(s, c) == rr + 1);
            assert(s[rr + 1] == s.skip(1)[rr]);
            assert forall|j: int| 0 <= j < rr + 1 implies s[j] != c by {
                if j >= 1 {
                    assert(s[j] == s.skip(1)[j - 1]);
                }
            }
        } else {
            assert(spec_find_char(s, c) == -1);
            assert forall|j: int| 0 <= j < s.len() implies s[j] != c by {
                if j >= 1 {
                    assert(s[j] == s.skip(1)[j - 1]);
                }
            }
        }
    }
}

} // verus!

verus! {

/// `p` occurs in `s` at position `k`.
pub open spec fn match_at(s: Seq<char>, p: Seq<char>, k: int) -> bool {
    0 <= k && k + p.len() <= s.len() && s.subrange(k, k + p.len()) == p
}

/// Index of the first occurrence of `p` in `s`, or `-1` if there is none.
pub open spec fn spec_find_seq(s: Seq<char>, p: Seq<char>) -> int
    decreases s.len(),
{
    if p.len() > s.len() {
        -1
    } else if s.subrange(0, p.len() as int) == p {
        0
    } else if s.len() == 0 {
        -1
    } else {
        let r = spec_find_seq(s.skip(1), p);
        if r < 0 {
            -1
        } else {
            r + 1
        }
    }
}

/// What [`spec_find_seq`] returns: either `-1` and `p` occurs nowhere in
/// `s`, or the first position where it occurs.
pub proof fn lemma_find_seq_char(s: Seq<char>, p: Seq<char>)
    ensures
        ({
            let r = spec_find_seq(s, p);
            ||| (r == -1 && forall|k: int| !match_at(s, p, k))
            ||| (match_at(s, p, r) && forall|k: int| 0 <= k < r ==> !match_at(s, p, k))
        }),
    decreases s.len(),
{
    let r = spec_find_seq(s, p);
    if p.len() > s.len() {
        assert(forall|k: int| !match_at(s, p, k));
    } else if s.subrange(0, p.len() as int) == p {
        assert(match_at(s, p, 0));
    } else if s.len() == 0 {
        assert(forall|k: int| !match_at(s, p, k));
    } else {
        lemma_find_seq_char(s.skip(1), p);
        let rr = spec_find_seq(s.skip(1), p);
        assert(!match_at(s, p, 0));
        assert forall|k: int| 1 <= k implies (match_at(s, p, k) <==> match_at(
            s.skip(1),
            p,
            k - 1,
        )) by {
            if 0 <= k - 1 && k - 1 + p.len() <= s.skip(1).len() {
                assert(s.skip(1).subrange(k - 1, k - 1 + p.len()) =~= s.subrange(
                    k,
                    k + p.len(),
                ));
            }
        }
        if rr >= 0 {
            assert(match_at(s, p, rr + 1));
            assert forall|k: int| 0 <= k < rr + 1 implies !match_at(s, p, k) by {
                if k >= 1 {
                    assert(!match_at(s.skip(1), p, k - 1));
                }
            }
        } else {
            assert forall|k: int| !match_at(s, p, k) implies true by {}
            assert forall|k: int| 0 <= k implies !match_at(s, p, k) by {
                if k >= 1 {
                    assert(!match_at(s.skip(1), p, k - 1));
                }
            }
            assert(forall|k: int| !match_at(s, p, k));
        }
    }
}

/// Find the first occurrence of `p` in `s`.
pub fn find_seq(s: &str, p: &str) -> (r: Option<usize>)
    ensures
        match r {
            Some(i) => spec_find_seq(s@, p@) == i && match_at(s@, p@, i as int),
            None => spec_find_seq(s@, p@) == -1,
        },
{
    let sl = s.unicode_len();
    let pl = p.unicode_len();
    if pl > sl {
        proof {
            lemma_find_seq_char(s@, p@);
        }
        return None;
    }
    if pl == 0 {
        proof {
            assert(s@.subrange(0, 0) =~= p@);
        }
        return Some(0);
    }
    let limit = sl - pl;
    let mut i: usize = 0;
    while i <= limit
        invariant
            sl == s@.len(),
            pl == p@.len(),
            0 < pl <= sl,
            limit == sl - pl,
            i <= limit + 1,
            forall|k: int| 0 <= k < i ==> !match_at(s@, p@, k),
        decreases limit - i + 1,
    {
        let window = s.substring_char(i, i + pl);
        if str_eq(window, p) {
            proof {
                assert(window@ =~= s@.subrange(i as int, i as int + p@.len()));
                assert(match_at(s@, p@, i as int));
                lemma_find_seq_char(s@, p@);
                let rr = spec_find_seq(s@, p@);
                if rr == -1 {
                    assert(!match_at(s@, p@, i as int));
                    assert(false);
                } else if rr < i {
                    assert(match_at(s@, p@, rr));
                    assert(false);
                } else if rr > i {
                    assert(!match_at(s@, p@, i as int));
                    assert(false);
                }
            }
            return Some(i);
        }
        proof {
            assert(window@ =~= s@.subrange(i as int, i as int + p@.len()));
        }
        i += 1;
    }
    proof {
        lemma_find_seq_char(s@, p@);
        let rr = spec_find_seq(s@, p@);
        if rr >= 0 {
            assert(match_at(s@, p@, rr));
            assert(rr < i);
            assert(false);
        }
    }
    None
}

} // verus!
