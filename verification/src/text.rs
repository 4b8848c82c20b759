//! Text helpers on characters.

use vstd::prelude::*;

verus! {

/// What stands before the first `c` in `s`.
pub open spec fn before(s: Seq<char>, c: char) -> Seq<char> {
    s.take(s.index_of_first(c).unwrap())
}

/// What stands behind the first `c` in `s`.
pub open spec fn behind(s: Seq<char>, c: char) -> Seq<char> {
    s.skip(s.index_of_first(c).unwrap() + 1)
}

/// `needle` stands in `s` at position `i`.
pub open spec fn stands_at(s: Seq<char>, needle: Seq<char>, i: int) -> bool {
    &&& 0 <= i
    &&& i + needle.len() <= s.len()
    &&& s.subrange(i, i + needle.len()) == needle
}

/// `needle` stands somewhere in `s`.
pub open spec fn holds_text(s: Seq<char>, needle: Seq<char>) -> bool {
    exists|i: int| stands_at(s, needle, i)
}

/// A text is put together from what stands before and behind the first `c`, and from that `c`;
/// and every way to split it at a `c` with none before it is this one.
pub proof fn split_is_unique(s: Seq<char>, c: char, head: Seq<char>, tail: Seq<char>)
    ensures
        s.contains(c) ==> s == before(s, c) + seq![c] + behind(s, c) && !before(s, c).contains(c),
        s == head + seq![c] + tail && !head.contains(c) ==> s.contains(c) && head == before(s, c)
            && tail == behind(s, c),
{
    s.index_of_first_ensures(c);
    if s.contains(c) {
        let i = s.index_of_first(c).unwrap();
        assert(s =~= before(s, c) + seq![c] + behind(s, c));
        assert forall|j: int| 0 <= j < before(s, c).len() implies before(s, c)[j] != c by {
            assert(s[j] != c);
        }
    }
    if s == head + seq![c] + tail && !head.contains(c) {
        assert(s[head.len() as int] == c);
        let i = s.index_of_first(c).unwrap();
        if i < head.len() {
            assert(head[i] == s[i]);
        }
        assert(i == head.len());
        assert(head =~= before(s, c));
        assert(tail =~= behind(s, c));
    }
}

/// The characters of `s`.
pub fn chars_of(s: &str) -> (r: Vec<char>)
    ensures
        r@ == s@,
{
    let mut r: Vec<char> = Vec::new();
    for c in it: s.chars()
        invariant
            it.seq() == s@,
            r@ == s@.take(it.index() as int),
    {
        r.push(c);
        assert(s@.take(it.index() + 1) =~= s@.take(it.index() as int).push(c));
    }
    assert(s@.take(s@.len() as int) =~= s@);
    r
}

/// Whether two texts are the same.
pub fn same_text(a: &str, b: &str) -> (r: bool)
    ensures
        r == (a@ == b@),
{
    a.to_owned() == b.to_owned()
}

/// Splits `s` at the first `c`.
pub fn split_char<'a>(s: &'a str, c: char) -> (r: Option<(&'a str, &'a str)>)
    ensures
        match r {
            Some((head, tail)) => s@.contains(c) && head@ == before(s@, c) && tail@ == behind(
                s@,
                c,
            ),
            None => !s@.contains(c),
        },
{
    let chars = chars_of(s);
    let n: usize = chars.len();
    let mut i: usize = 0;
    while i < n
        invariant
            chars@ == s@,
            n == s@.len(),
            i <= n,
            forall|j: int| 0 <= j < i ==> s@[j] != c,
        decreases n - i,
    {
        if chars[i] == c {
            let head = s.substring_char(0, i);
            let tail = s.substring_char(i + 1, n);
            proof {
                assert(s@[i as int] == c);
                split_is_unique(s@, c, head@, tail@);
                assert(s@ =~= head@ + seq![c] + tail@);
            }
            return Some((head, tail));
        }
        i += 1;
    }
    None
}

/// Splits a frame at its first space into what kind of frame it is and what it carries.
pub fn split_once<'a>(in_string: &'a str) -> (r: (&'a str, &'a str))
    requires
        in_string@.contains(' '),
    ensures
        in_string@ == r.0@ + seq![' '] + r.1@,
        !r.0@.contains(' '),
{
    proof {
        split_is_unique(in_string@, ' ', seq![], seq![]);
    }
    split_char(in_string, ' ').unwrap()
}

/// Whether `needle` stands somewhere in `s`.
pub fn contains_text(s: &str, needle: &str) -> (r: bool)
    ensures
        r == holds_text(s@, needle@),
{
    let hay = chars_of(s);
    let pat = chars_of(needle);
    let n: usize = hay.len();
    let m: usize = pat.len();
    if m > n {
        return false;
    }
    let last: usize = n - m;
    let mut i: usize = 0;
    while i <= last
        invariant
            hay@ == s@,
            pat@ == needle@,
            n == s@.len(),
            m == needle@.len(),
            last == n - m,
            i <= last + 1,
            forall|j: int| 0 <= j < i ==> !stands_at(s@, needle@, j),
        decreases last + 1 - i,
    {
        let mut k: usize = 0;
        while k < m && hay[i + k] == pat[k]
            invariant
                hay@ == s@,
                pat@ == needle@,
                n == s@.len(),
                m == needle@.len(),
                i + m <= n,
                k <= m,
                forall|j: int| 0 <= j < k ==> s@[i + j] == #[trigger] needle@[j],
            decreases m - k,
        {
            k += 1;
        }
        if k == m {
            assert(s@.subrange(i as int, i + m) =~= needle@);
            assert(stands_at(s@, needle@, i as int));
            return true;
        }
        assert(!stands_at(s@, needle@, i as int)) by {
            assert(s@.subrange(i as int, i + m)[k as int] == s@[i + k]);
        }
        if i == last {
            return false;
        }
        i += 1;
    }
    false
}

} // verus!
