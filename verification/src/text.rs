//! Searching in text: where a piece stands in a sequence of characters.
use vstd::prelude::*;
use vstd::string::StrSliceExecFns;

verus! {

/// Whether `needle` stands in `hay` at position `at`.
pub open spec fn occurs_at(hay: Seq<char>, needle: Seq<char>, at: int) -> bool {
    &&& 0 <= at
    &&& at + needle.len() <= hay.len()
    &&& hay.subrange(at, at + needle.len()) == needle
}

/// Whether `needle` stands somewhere in `hay`.
pub open spec fn contains(hay: Seq<char>, needle: Seq<char>) -> bool {
    exists|at: int| occurs_at(hay, needle, at)
}

/// The characters of `s`, one by one.
pub fn chars_of(s: &str) -> (r: Vec<char>)
    ensures
        r@ == s@,
{
    let n = s.unicode_len();
    let mut out: Vec<char> = Vec::new();
    let mut i: usize = 0;
    while i < n
        invariant
            n == s@.len(),
            i <= n,
            out@ == s@.take(i as int),
        decreases n - i,
    {
        out.push(s.get_char(i));
        proof {
            assert(out@ =~= s@.take(i + 1));
        }
        i = i + 1;
    }
    proof {
        assert(s@.take(n as int) =~= s@);
    }
    out
}

/// Whether `needle` stands in `hay` at position `at`.
pub fn matches_at(hay: &Vec<char>, needle: &Vec<char>, at: usize) -> (r: bool)
    ensures
        r == occurs_at(hay@, needle@, at as int),
{
    if needle.len() > hay.len() || at > hay.len() - needle.len() {
        return false;
    }
    let mut k: usize = 0;
    while k < needle.len()
        invariant
            k <= needle@.len(),
            at + needle@.len() <= hay@.len(),
            hay@.len() <= usize::MAX,
            forall|j: int| 0 <= j < k ==> hay@[at + j] == needle@[j],
        decreases needle@.len() - k,
    {
        if hay[at + k] != needle[k] {
            proof {
                let piece = hay@.subrange(at as int, at + needle@.len());
                assert(piece[k as int] == hay@[at + k]);
            }
            return false;
        }
        k = k + 1;
    }
    proof {
        assert(hay@.subrange(at as int, at + needle@.len()) =~= needle@);
    }
    true
}

/// Whether `needle` stands somewhere in `hay`.
pub fn find_in(hay: &Vec<char>, needle: &Vec<char>) -> (r: bool)
    ensures
        r == contains(hay@, needle@),
{
    if needle.len() > hay.len() {
        return false;
    }
    let last = hay.len() - needle.len();
    let mut at: usize = 0;
    loop
        invariant
            last == hay@.len() - needle@.len(),
            at <= last,
            forall|j: int| 0 <= j < at ==> !occurs_at(hay@, needle@, j),
        decreases last - at,
    {
        if matches_at(hay, needle, at) {
            return true;
        }
        if at == last {
            return false;
        }
        at = at + 1;
    }
}

/// Whether `at` is the place of the first `c` in `hay`.
pub open spec fn is_first(hay: Seq<char>, c: char, at: int) -> bool {
    &&& 0 <= at < hay.len()
    &&& hay[at] == c
    &&& forall|j: int| 0 <= j < at ==> hay[j] != c
}

/// What stands in `s` behind its last `c`; all of `s` where it holds no `c`.
pub open spec fn after_last(s: Seq<char>, c: char) -> Seq<char>
    decreases s.len(),
{
    if s.len() == 0 {
        s
    } else if s.last() == c {
        Seq::empty()
    } else {
        after_last(s.drop_last(), c).push(s.last())
    }
}

/// `s` without the run of `c` at its end.
pub open spec fn trim_end(s: Seq<char>, c: char) -> Seq<char>
    decreases s.len(),
{
    if s.len() > 0 && s.last() == c {
        trim_end(s.drop_last(), c)
    } else {
        s
    }
}

/// Whether two texts hold the same characters.
pub fn same_text(a: &str, b: &str) -> (r: bool)
    ensures
        r == (a@ == b@),
{
    let x = chars_of(a);
    let y = chars_of(b);
    if x.len() != y.len() {
        return false;
    }
    let r = matches_at(&x, &y, 0);
    proof {
        assert(x@.subrange(0, x@.len() as int) =~= x@);
    }
    r
}

/// The place of the first `c` in `hay`, if it holds one.
pub fn find_first(hay: &Vec<char>, c: char) -> (r: Option<usize>)
    ensures
        match r {
            Some(at) => is_first(hay@, c, at as int),
            None => forall|j: int| 0 <= j < hay@.len() ==> hay@[j] != c,
        },
{
    let mut i: usize = 0;
    while i < hay.len()
        invariant
            i <= hay@.len(),
            forall|j: int| 0 <= j < i ==> hay@[j] != c,
        decreases hay@.len() - i,
    {
        if hay[i] == c {
            return Some(i);
        }
        i = i + 1;
    }
    None
}

/// What stands behind the last `c` in a text that holds no `c` from `start`
/// on, and has a `c` just before `start` or starts there.
pub proof fn lemma_after_last(s: Seq<char>, c: char, start: int)
    requires
        0 <= start <= s.len(),
        start == 0 || s[start - 1] == c,
        forall|j: int| start <= j < s.len() ==> s[j] != c,
    ensures
        after_last(s, c) == s.skip(start),
    decreases s.len() - start,
{
    if s.len() == 0 {
        assert(s.skip(start) =~= s);
    } else if start == s.len() {
        assert(s.skip(start) =~= Seq::<char>::empty());
    } else {
        let front = s.drop_last();
        assert forall|j: int| start <= j < front.len() implies front[j] != c by {
            assert(front[j] == s[j]);
        }
        if start > 0 {
            assert(front[start - 1] == s[start - 1]);
        }
        lemma_after_last(front, c, start);
        assert(front.skip(start).push(s.last()) =~= s.skip(start));
    }
}

/// Where in the first `end` characters of `hay` the piece behind the last
/// `c` starts.
pub fn start_after_last(hay: &Vec<char>, end: usize, c: char) -> (r: usize)
    requires
        end <= hay@.len(),
    ensures
        r <= end,
        hay@.subrange(r as int, end as int) == after_last(hay@.take(end as int), c),
{
    let mut k: usize = end;
    while k > 0 && hay[k - 1] != c
        invariant
            k <= end,
            end <= hay@.len(),
            forall|j: int| k <= j < end ==> hay@[j] != c,
        decreases k,
    {
        k = k - 1;
    }
    proof {
        let head = hay@.take(end as int);
        assert forall|j: int| k <= j < head.len() implies head[j] != c by {
            assert(head[j] == hay@[j]);
        }
        if k > 0 {
            assert(head[k - 1] == hay@[k - 1]);
        }
        lemma_after_last(head, c, k as int);
        assert(head.skip(k as int) =~= hay@.subrange(k as int, end as int));
    }
    k
}

/// A text that does not end in `c` is its own trimmed form, and a run of
/// `c` behind it is trimmed away.
pub proof fn lemma_trim_end(s: Seq<char>, c: char, end: int)
    requires
        0 <= end <= s.len(),
        end == 0 || s[end - 1] != c,
        forall|j: int| end <= j < s.len() ==> s[j] == c,
    ensures
        trim_end(s, c) == s.take(end),
    decreases s.len() - end,
{
    if end == s.len() {
        assert(s.take(end) =~= s);
    } else {
        let front = s.drop_last();
        assert(s.last() == c);
        assert forall|j: int| end <= j < front.len() implies front[j] == c by {
            assert(front[j] == s[j]);
        }
        if end > 0 {
            assert(front[end - 1] == s[end - 1]);
        }
        lemma_trim_end(front, c, end);
        assert(front.take(end) =~= s.take(end));
    }
}

/// Where the piece of `hay` from `start` on ends once the run of `c` at its
/// end is trimmed away.
pub fn end_trimmed(hay: &Vec<char>, start: usize, c: char) -> (r: usize)
    requires
        start <= hay@.len(),
    ensures
        start <= r <= hay@.len(),
        hay@.subrange(start as int, r as int) == trim_end(hay@.skip(start as int), c),
{
    let mut e: usize = hay.len();
    while e > start && hay[e - 1] == c
        invariant
            start <= e <= hay@.len(),
            forall|j: int| e <= j < hay@.len() ==> hay@[j] == c,
        decreases e,
    {
        e = e - 1;
    }
    proof {
        let tail = hay@.skip(start as int);
        let end = e - start;
        assert forall|j: int| end <= j < tail.len() implies tail[j] == c by {
            assert(tail[j] == hay@[start + j]);
        }
        if end > 0 {
            assert(tail[end - 1] == hay@[e - 1]);
        }
        lemma_trim_end(tail, c, end);
        assert(tail.take(end) =~= hay@.subrange(start as int, e as int));
    }
    e
}

} // verus!
