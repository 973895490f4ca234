//! Search for a run of symbols inside a longer sequence.
use vstd::prelude::*;

verus! {

/// Whether `needle` stands in `hay` at offset `at`.
pub open spec fn occurs_at<T>(hay: Seq<T>, needle: Seq<T>, at: int) -> bool {
    &&& 0 <= at
    &&& at + needle.len() <= hay.len()
    &&& hay.subrange(at, at + needle.len()) == needle
}

/// Whether `needle` stands somewhere in `hay`.
pub open spec fn occurs<T>(hay: Seq<T>, needle: Seq<T>) -> bool {
    exists|at: int| occurs_at(hay, needle, at)
}

/// Whether `at` is the smallest offset at which `needle` stands in `hay`.
pub open spec fn is_first_occurrence<T>(hay: Seq<T>, needle: Seq<T>, at: int) -> bool {
    &&& occurs_at(hay, needle, at)
    &&& forall|before: int| 0 <= before < at ==> !occurs_at(hay, needle, before)
}

/// The smallest offset at which `needle` stands in `hay`, if there is one.
pub open spec fn first_occurrence<T>(hay: Seq<T>, needle: Seq<T>) -> Option<int> {
    if occurs(hay, needle) {
        Some(choose|at: int| is_first_occurrence(hay, needle, at))
    } else {
        None
    }
}

/// A first occurrence, once found, is the value of [`first_occurrence`].
pub proof fn lemma_first_occurrence<T>(hay: Seq<T>, needle: Seq<T>, at: int)
    requires
        is_first_occurrence(hay, needle, at),
    ensures
        first_occurrence(hay, needle) == Some(at),
{
    let chosen = choose|k: int| is_first_occurrence(hay, needle, k);
    assert(is_first_occurrence(hay, needle, chosen));
    if chosen < at {
        assert(!occurs_at(hay, needle, chosen));
    }
    if at < chosen {
        assert(!occurs_at(hay, needle, at));
    }
}

/// A symbol that can be compared with another of its kind.
pub trait Symbol: Copy {
    /// Whether the two symbols are equal.
    fn same(self, other: Self) -> (r: bool)
        ensures
            r == (self == other),
    ;
}

impl Symbol for u8 {
    fn same(self, other: u8) -> (r: bool) {
        self == other
    }
}

impl Symbol for char {
    fn same(self, other: char) -> (r: bool) {
        self == other
    }
}

/// Whether `needle` stands in `hay` at offset `at`.
pub fn matches_at<T: Symbol>(hay: &[T], needle: &[T], at: usize) -> (r: bool)
    requires
        at + needle@.len() <= hay@.len(),
    ensures
        r == occurs_at(hay@, needle@, at as int),
{
    let n: usize = needle.len();
    let h: usize = hay.len();
    let mut k: usize = 0;
    while k < n
        invariant
            k <= n,
            n == needle@.len(),
            h == hay@.len(),
            at + n <= h,
            forall|j: int| 0 <= j < k ==> hay@[at + j] == needle@[j],
        decreases n - k,
    {
        if !hay[at + k].same(needle[k]) {
            assert(hay@.subrange(at as int, at + n)[k as int] != needle@[k as int]);
            return false;
        }
        k += 1;
    }
    assert(hay@.subrange(at as int, at + n) =~= needle@);
    true
}

/// Finds the first place at which `needle` stands in `hay`.
pub fn find<T: Symbol>(hay: &[T], needle: &[T]) -> (r: Option<usize>)
    ensures
        match r {
            Some(at) => is_first_occurrence(hay@, needle@, at as int) && first_occurrence(
                hay@,
                needle@,
            ) == Some(at as int),
            None => !occurs(hay@, needle@) && first_occurrence(hay@, needle@) is None,
        },
{
    let n: usize = needle.len();
    let h: usize = hay.len();
    if n > h {
        return None;
    }
    let last: usize = h - n;
    let mut at: usize = 0;
    loop
        invariant
            at <= last,
            last == h - n,
            h == hay@.len(),
            n == needle@.len(),
            forall|before: int| 0 <= before < at ==> !occurs_at(hay@, needle@, before),
        decreases last - at,
    {
        if matches_at(hay, needle, at) {
            proof {
                lemma_first_occurrence(hay@, needle@, at as int);
            }
            return Some(at);
        }
        if at == last {
            return None;
        }
        at += 1;
    }
}

/// Whether `needle` stands somewhere in `hay`.
pub fn contains<T: Symbol>(hay: &[T], needle: &[T]) -> (r: bool)
    ensures
        r == occurs(hay@, needle@),
{
    find(hay, needle).is_some()
}

} // verus!
