use vstd::prelude::*;

verus! {

/// The characters of `s`, in order.
pub fn chars_of(s: &str) -> (out: Vec<char>)
    ensures
        out@ == s@,
{
    let mut out: Vec<char> = Vec::new();
    for c in it: s.chars()
        invariant
            out@ == it.seq().take(it.index() as int),
            it.seq() == s@,
    {
        out.push(c);
    }
    out
}


/// `p` occurs in `s` starting at position `i`.
pub open spec fn match_at(s: Seq<char>, p: Seq<char>, i: int) -> bool {
    &&& 0 <= i
    &&& i + p.len() <= s.len()
    &&& s.subrange(i, i + p.len()) =~= p
}

/// The first position at or after `start` where `p` occurs in `s`.
#[verifier::opaque]
pub open spec fn first_match_from(s: Seq<char>, p: Seq<char>, start: int) -> Option<int> {
    if exists|i: int| start <= i && #[trigger] match_at(s, p, i) {
        Some(
            choose|i: int|
                start <= i && #[trigger] match_at(s, p, i) && forall|j: int|
                    start <= j < i ==> !match_at(s, p, j),
        )
    } else {
        None
    }
}

/// A match at `i` with none before it (from `start` on) is the first match.
pub proof fn lemma_first_match(s: Seq<char>, p: Seq<char>, start: int, i: int)
    requires
        start <= i,
        match_at(s, p, i),
        forall|j: int| start <= j < i ==> !match_at(s, p, j),
    ensures
        first_match_from(s, p, start) == Some(i),
{
    reveal(first_match_from);
    let c = choose|k: int|
        start <= k && #[trigger] match_at(s, p, k) && forall|j: int| start <= j < k ==> !match_at(s, p, j);
    assert(start <= c && match_at(s, p, c));
    if c < i {
        assert(!match_at(s, p, c));
    }
    if c > i {
        assert(!match_at(s, p, i));
    }
}

/// If `p` occurs in `s` at `i` (at or after `start`), it has a first
/// occurrence from `start` on.
pub proof fn lemma_first_match_exists(s: Seq<char>, p: Seq<char>, start: int, i: int)
    requires
        start <= i,
        match_at(s, p, i),
    ensures
        exists|k: int|
            start <= k && #[trigger] match_at(s, p, k) && forall|j: int| start <= j < k ==> !match_at(s, p, j),
    decreases i - start,
{
    if exists|j: int| start <= j < i && match_at(s, p, j) {
        let j = choose|j: int| start <= j < i && match_at(s, p, j);
        lemma_first_match_exists(s, p, start, j);
    } else {
        assert(forall|j: int| start <= j < i ==> !match_at(s, p, j));
    }
}

/// What `first_match_from` gives: the first occurrence from `start` on,
/// or none when `p` does not occur there.
pub proof fn lemma_first_match_meaning(s: Seq<char>, p: Seq<char>, start: int)
    ensures
        match first_match_from(s, p, start) {
            Some(k) => start <= k && match_at(s, p, k) && forall|j: int| start <= j < k ==> !match_at(s, p, j),
            None => forall|j: int| start <= j ==> !match_at(s, p, j),
        },
{
    reveal(first_match_from);
    if exists|i: int| start <= i && #[trigger] match_at(s, p, i) {
        let i = choose|i: int| start <= i && #[trigger] match_at(s, p, i);
        lemma_first_match_exists(s, p, start, i);
    }
}

/// Whether `p` occurs in `s` at position `i`.
pub fn matches_at(s: &Vec<char>, p: &Vec<char>, i: usize) -> (r: bool)
    ensures
        r == match_at(s@, p@, i as int),
{
    if i > s.len() || p.len() > s.len() - i {
        return false;
    }
    let n = s.len();
    let mut k: usize = 0;
    while k < p.len()
        invariant
            n == s@.len(),
            i + p@.len() <= s@.len(),
            k <= p@.len(),
            forall|m: int| 0 <= m < k ==> s@[i + m] == p@[m],
        decreases p@.len() - k,
    {
        if s[i + k] != p[k] {
            assert(s@.subrange(i as int, i + p@.len())[k as int] != p@[k as int]);
            return false;
        }
        k = k + 1;
    }
    assert(s@.subrange(i as int, i + p@.len()) =~= p@);
    true
}

/// The first position at or after `start` where `p` occurs in `s`.
pub fn find_from(s: &Vec<char>, p: &Vec<char>, start: usize) -> (r: Option<usize>)
    ensures
        match r {
            Some(i) => {
                &&& start <= i
                &&& match_at(s@, p@, i as int)
                &&& first_match_from(s@, p@, start as int) == Some(i as int)
            },
            None => first_match_from(s@, p@, start as int) is None,
        },
{
    let mut i: usize = start;
    while i <= s.len() && p.len() <= s.len() - i
        invariant
            start <= i,
            forall|j: int| start <= j < i ==> !match_at(s@, p@, j),
        decreases s@.len() + 1 - i,
    {
        if matches_at(s, p, i) {
            proof {
                lemma_first_match(s@, p@, start as int, i as int);
            }
            return Some(i);
        }
        i = i + 1;
    }
    assert forall|j: int| start <= j implies !#[trigger] match_at(s@, p@, j) by {
        if j >= i {
            assert(j + p@.len() > s@.len());
        }
    }
    proof {
        reveal(first_match_from);
    }
    None
}

/// Whether `a` and `b` hold the same characters.
pub fn same_chars(a: &Vec<char>, b: &Vec<char>) -> (r: bool)
    ensures
        r == (a@ == b@),
{
    if a.len() != b.len() {
        return false;
    }
    let r = matches_at(a, b, 0);
    proof {
        if r {
            assert(a@ =~= a@.subrange(0, b@.len() as int));
        } else {
            assert(a@.subrange(0, b@.len() as int) =~= a@);
        }
    }
    r
}

/// The characters of `s` from position `lo` up to `hi`.
pub fn sub_chars(s: &Vec<char>, lo: usize, hi: usize) -> (r: Vec<char>)
    requires
        lo <= hi <= s@.len(),
    ensures
        r@ == s@.subrange(lo as int, hi as int),
{
    let mut r: Vec<char> = Vec::new();
    let mut k: usize = lo;
    while k < hi
        invariant
            lo <= k <= hi <= s@.len(),
            r@ == s@.subrange(lo as int, k as int),
        decreases hi - k,
    {
        r.push(s[k]);
        k = k + 1;
        assert(r@ =~= s@.subrange(lo as int, k as int));
    }
    r
}

} // verus!
