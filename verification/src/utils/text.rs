//! Strings as sequences of characters: joining, searching and replacing.

use vstd::prelude::*;
use vstd::string::*;

verus! {

/// Whether `pat` stands in `s` at position `i`.
pub open spec fn occurs_at(s: Seq<char>, pat: Seq<char>, i: int) -> bool {
    &&& 0 <= i
    &&& i + pat.len() <= s.len()
    &&& s.subrange(i, i + pat.len()) == pat
}

/// Whether `i` is the leftmost position at which `pat` stands in `s`.
pub open spec fn is_first_occurrence(s: Seq<char>, pat: Seq<char>, i: int) -> bool {
    &&& occurs_at(s, pat, i)
    &&& forall|j: int| 0 <= j < i ==> !occurs_at(s, pat, j)
}

/// Whether `pat` stands anywhere in `s`.
pub open spec fn occurs(s: Seq<char>, pat: Seq<char>) -> bool {
    exists|i: int| occurs_at(s, pat, i)
}

/// `s` with the `len` characters from position `i` on replaced by `to`.
pub open spec fn spliced(s: Seq<char>, i: int, len: int, to: Seq<char>) -> Seq<char> {
    s.subrange(0, i) + to + s.subrange(i + len, s.len() as int)
}

/// `s` with the leftmost occurrence of `pat` replaced by `to`; `s` itself
/// where `pat` does not occur.
pub open spec fn replace_first(s: Seq<char>, pat: Seq<char>, to: Seq<char>) -> Seq<char> {
    if occurs(s, pat) {
        let i = choose|i: int| is_first_occurrence(s, pat, i);
        spliced(s, i, pat.len() as int, to)
    } else {
        s
    }
}

/// The leftmost occurrence is unique, so [`replace_first`] is the splice at
/// whichever first occurrence one has found.
pub proof fn lemma_replace_first_at(s: Seq<char>, pat: Seq<char>, to: Seq<char>, i: int)
    requires
        is_first_occurrence(s, pat, i),
    ensures
        replace_first(s, pat, to) == spliced(s, i, pat.len() as int, to),
{
    assert(occurs_at(s, pat, i));
    let k = choose|k: int| occurs_at(s, pat, k);
    lemma_first_occurrence_exists(s, pat, k);
    let j = choose|j: int| is_first_occurrence(s, pat, j);
    assert(is_first_occurrence(s, pat, j));
    if j < i {
        assert(!occurs_at(s, pat, j));
    }
    if i < j {
        assert(!occurs_at(s, pat, i));
    }
}

/// Where `pat` occurs at all, it has a leftmost occurrence.
pub proof fn lemma_first_occurrence_exists(s: Seq<char>, pat: Seq<char>, k: int)
    requires
        occurs_at(s, pat, k),
    ensures
        exists|i: int| is_first_occurrence(s, pat, i),
    decreases k,
{
    if exists|j: int| 0 <= j < k && occurs_at(s, pat, j) {
        let j = choose|j: int| 0 <= j < k && occurs_at(s, pat, j);
        lemma_first_occurrence_exists(s, pat, j);
    } else {
        assert(is_first_occurrence(s, pat, k));
    }
}

/// The characters of `s`, one by one.
pub fn chars_of(s: &str) -> (v: Vec<char>)
    ensures
        v@ == s@,
{
    let n: usize = s.unicode_len();
    let mut v: Vec<char> = Vec::new();
    let mut i: usize = 0;
    while i < n
        invariant
            i <= n,
            n == s@.len(),
            v@ == s@.subrange(0, i as int),
        decreases n - i,
    {
        v.push(s.get_char(i));
        i += 1;
        assert(v@ == s@.subrange(0, i as int));
    }
    assert(s@.subrange(0, n as int) == s@);
    v
}

/// Whether the two strings hold the same characters.
pub fn same_text(a: &str, b: &str) -> (same: bool)
    ensures
        same == (a@ == b@),
{
    let x: Vec<char> = chars_of(a);
    let y: Vec<char> = chars_of(b);
    if x.len() != y.len() {
        return false;
    }
    let mut i: usize = 0;
    while i < x.len()
        invariant
            i <= x.len(),
            x.len() == y.len(),
            x@ == a@,
            y@ == b@,
            x@.subrange(0, i as int) == y@.subrange(0, i as int),
        decreases x.len() - i,
    {
        if x[i] != y[i] {
            assert(x@[i as int] != y@[i as int]);
            return false;
        }
        i += 1;
        assert(x@.subrange(0, i as int) == x@.subrange(0, i - 1).push(x@[i - 1]));
        assert(y@.subrange(0, i as int) == y@.subrange(0, i - 1).push(y@[i - 1]));
    }
    assert(x@.subrange(0, x.len() as int) == x@);
    assert(y@.subrange(0, y.len() as int) == y@);
    true
}

/// Whether `pat` stands in `s` at position `i`.
fn matches_at(s: &Vec<char>, pat: &Vec<char>, i: usize) -> (b: bool)
    ensures
        b == occurs_at(s@, pat@, i as int),
{
    if pat.len() > s.len() || i > s.len() - pat.len() {
        return false;
    }
    let mut k: usize = 0;
    while k < pat.len()
        invariant
            k <= pat.len(),
            i + pat.len() <= s.len(),
            s@.subrange(i as int, i + k) == pat@.subrange(0, k as int),
        decreases pat.len() - k,
    {
        if s[i + k] != pat[k] {
            assert(s@.subrange(i as int, i + pat.len())[k as int] != pat@[k as int]);
            return false;
        }
        k += 1;
        assert(s@.subrange(i as int, i + k) == s@.subrange(i as int, i + k - 1).push(s@[i + k - 1]));
        assert(pat@.subrange(0, k as int) == pat@.subrange(0, k - 1).push(pat@[k - 1]));
    }
    assert(pat@.subrange(0, pat.len() as int) == pat@);
    true
}

/// The leftmost position at which `pat` stands in `s`, if there is one.
pub fn find_first(s: &str, pat: &str) -> (found: Option<usize>)
    ensures
        match found {
            Some(i) => is_first_occurrence(s@, pat@, i as int),
            None => !occurs(s@, pat@),
        },
{
    let text: Vec<char> = chars_of(s);
    let needle: Vec<char> = chars_of(pat);
    if needle.len() > text.len() {
        return None;
    }
    let last: usize = text.len() - needle.len();
    let mut i: usize = 0;
    while i < last
        invariant
            i <= last,
            last == text.len() - needle.len(),
            needle.len() <= text.len(),
            text@ == s@,
            needle@ == pat@,
            forall|j: int| 0 <= j < i ==> !occurs_at(s@, pat@, j),
        decreases last - i,
    {
        if matches_at(&text, &needle, i) {
            return Some(i);
        }
        i += 1;
    }
    if matches_at(&text, &needle, last) {
        Some(last)
    } else {
        None
    }
}

/// `s` with every occurrence of `pat` replaced by `to`, going from left to
/// right: an occurrence that starts inside one already replaced does not
/// count, and what has been put in is not searched again. An empty `pat`
/// occurs nowhere.
pub open spec fn replace_all(s: Seq<char>, pat: Seq<char>, to: Seq<char>) -> Seq<char>
    decreases s.len(),
{
    if s.len() == 0 {
        s
    } else if pat.len() > 0 && occurs_at(s, pat, 0) {
        to + replace_all(s.subrange(pat.len() as int, s.len() as int), pat, to)
    } else {
        seq![s[0]] + replace_all(s.subrange(1, s.len() as int), pat, to)
    }
}

/// `s` with every occurrence of `pat` replaced by `to`.
pub fn replace_all_in(s: &str, pat: &str, to: &str) -> (r: String)
    ensures
        r@ == replace_all(s@, pat@, to@),
{
    let text: Vec<char> = chars_of(s);
    let needle: Vec<char> = chars_of(pat);
    let n: usize = text.len();
    let mut out: String = String::new();
    let mut i: usize = 0;
    assert(s@.subrange(0, n as int) == s@);
    assert(out@ + replace_all(s@, pat@, to@) == replace_all(s@, pat@, to@));
    while i < n
        invariant
            i <= n,
            n == s@.len(),
            text@ == s@,
            needle@ == pat@,
            out@ + replace_all(s@.subrange(i as int, n as int), pat@, to@) == replace_all(
                s@,
                pat@,
                to@,
            ),
        decreases n - i,
    {
        let ghost rest = s@.subrange(i as int, n as int);
        let ghost had = out@;
        let here: bool = needle.len() > 0 && matches_at(&text, &needle, i);
        proof {
            if i + pat@.len() <= n {
                assert(rest.subrange(0, pat@.len() as int) == s@.subrange(
                    i as int,
                    i + pat@.len(),
                ));
            }
            assert(occurs_at(rest, pat@, 0) == occurs_at(s@, pat@, i as int));
        }
        if here {
            out.append(to);
            proof {
                assert(rest.subrange(pat@.len() as int, rest.len() as int) == s@.subrange(
                    i + pat@.len(),
                    n as int,
                ));
                assert(had + (to@ + replace_all(
                    s@.subrange(i + pat@.len(), n as int),
                    pat@,
                    to@,
                )) == (had + to@) + replace_all(s@.subrange(i + pat@.len(), n as int), pat@, to@));
            }
            i += needle.len();
        } else {
            let one: &str = s.substring_char(i, i + 1);
            out.append(one);
            proof {
                assert(one@ == seq![s@[i as int]]);
                assert(rest[0] == s@[i as int]);
                assert(rest.subrange(1, rest.len() as int) == s@.subrange(i + 1, n as int));
                assert(had + (seq![s@[i as int]] + replace_all(
                    s@.subrange(i + 1, n as int),
                    pat@,
                    to@,
                )) == (had + seq![s@[i as int]]) + replace_all(
                    s@.subrange(i + 1, n as int),
                    pat@,
                    to@,
                ));
            }
            i += 1;
        }
    }
    assert(s@.subrange(n as int, n as int).len() == 0);
    assert(out@ + Seq::<char>::empty() == out@);
    out
}

/// `a` followed by `b`.
pub fn join2(a: &str, b: &str) -> (r: String)
    ensures
        r@ == a@ + b@,
{
    let mut r: String = String::from_str(a);
    r.append(b);
    r
}

/// `a`, `b` and `c` in a row.
pub fn join3(a: &str, b: &str, c: &str) -> (r: String)
    ensures
        r@ == a@ + b@ + c@,
{
    let mut r: String = String::from_str(a);
    r.append(b);
    r.append(c);
    r
}

/// A copy of a text that may be absent.
pub fn copy_optional(text: &Option<String>) -> (copy: Option<String>)
    ensures
        copy == *text,
{
    match text {
        Some(t) => Some(t.clone()),
        None => None,
    }
}

/// `s` with the leftmost occurrence of `pat` replaced by `to`.
pub fn replace_first_in(s: &str, pat: &str, to: &str) -> (r: String)
    ensures
        r@ == replace_first(s@, pat@, to@),
{
    match find_first(s, pat) {
        Some(i) => {
            let n: usize = s.unicode_len();
            let m: usize = pat.unicode_len();
            let head: &str = s.substring_char(0, i);
            let tail: &str = s.substring_char(i + m, n);
            proof {
                lemma_replace_first_at(s@, pat@, to@, i as int);
            }
            join3(head, to, tail)
        },
        None => String::from_str(s),
    }
}

} // verus!
