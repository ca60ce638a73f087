//! The trajectory comparator: a verified cursor walk that aligns a coarse
//! run's samples against a fine run's grid.
//!
//! For each fine-grid index, in increasing order, the caller compares the
//! fine sample time against the coarse sample time under the cursor (a
//! floating-point tolerance test, which stays with the caller) and reports
//! the outcome. A match pairs the fine index with the coarse index under
//! the cursor and advances the cursor; a miss leaves the fine index
//! unpaired. The cursor never backtracks, so each coarse sample is consumed
//! at most once and matches come out in increasing coarse order. When the
//! grids do not line up, some or all fine indices simply stay unpaired;
//! that is the expected outcome, not an error.

use vstd::prelude::*;

verus! {

/// How many entries of an alignment result are matches.
pub open spec fn match_count(s: Seq<Option<usize>>) -> nat
    decreases s.len(),
{
    if s.len() == 0 {
        0
    } else {
        match_count(s.drop_last()) + (if s.last() is Some {
            1nat
        } else {
            0nat
        })
    }
}

/// The shape every alignment result has: the entry at a matched fine index
/// names exactly the coarse index equal to the number of matches strictly
/// before it, and every named coarse index lies inside the coarse grid.
pub open spec fn aligned_form(s: Seq<Option<usize>>, coarse_len: nat) -> bool {
    forall|i: int|
        0 <= i < s.len() ==> (#[trigger] s[i] matches Some(j) ==> {
            &&& j == match_count(s.take(i))
            &&& j < coarse_len
        })
}

proof fn lemma_match_count_push(s: Seq<Option<usize>>, x: Option<usize>)
    ensures
        match_count(s.push(x)) == match_count(s) + (if x is Some {
            1nat
        } else {
            0nat
        }),
{
    assert(s.push(x).drop_last() =~= s);
    assert(s.push(x).last() == x);
}

/// Match counts of prefixes grow with the prefix.
pub proof fn lemma_match_count_take_le(s: Seq<Option<usize>>, i: int, j: int)
    requires
        0 <= i <= j <= s.len(),
    ensures
        match_count(s.take(i)) <= match_count(s.take(j)),
    decreases j - i,
{
    if i < j {
        lemma_match_count_take_le(s, i, j - 1);
        assert(s.take(j).drop_last() =~= s.take(j - 1));
    }
}

/// Law: in an alignment result, two matched fine indices always name
/// strictly increasing coarse indices. The cursor is monotone: no coarse
/// sample is ever paired with two fine indices, and coarse samples are
/// consumed in grid order.
pub proof fn lemma_alignment_strictly_increasing(
    s: Seq<Option<usize>>,
    coarse_len: nat,
    i: int,
    j: int,
)
    requires
        aligned_form(s, coarse_len),
        0 <= i < j < s.len(),
        s[i] is Some,
        s[j] is Some,
    ensures
        s[i]->Some_0 < s[j]->Some_0,
{
    assert(s.take(i + 1).drop_last() =~= s.take(i));
    assert(s.take(i + 1).last() == s[i]);
    assert(match_count(s.take(i + 1)) == match_count(s.take(i)) + 1);
    lemma_match_count_take_le(s, i + 1, j);
}

/// Resolve an alignment result against the coarse samples it names: one
/// value-or-absent entry per fine index, carrying the coarse sample paired
/// with that fine index. An entry naming a coarse index outside the given
/// samples resolves to absent; on an alignment result produced against
/// these samples' grid no such entry exists.
pub fn select_matched(pairing: &Vec<Option<usize>>, coarse_vals: &Vec<u64>) -> (r: Vec<
    Option<u64>,
>)
    ensures
        r@.len() == pairing@.len(),
        forall|i: int|
            0 <= i < r@.len() ==> r@[i] == (match pairing@[i] {
                Some(j) => if j < coarse_vals@.len() {
                    Some(coarse_vals@[j as int])
                } else {
                    None
                },
                None => None::<u64>,
            }),
{
    let mut out: Vec<Option<u64>> = Vec::new();
    let mut i: usize = 0;
    while i < pairing.len()
        invariant
            i <= pairing@.len(),
            out@.len() == i,
            forall|k: int|
                0 <= k < i ==> out@[k] == (match pairing@[k] {
                    Some(j) => if j < coarse_vals@.len() {
                        Some(coarse_vals@[j as int])
                    } else {
                        None
                    },
                    None => None::<u64>,
                }),
        decreases pairing@.len() - i,
    {
        let entry = match pairing[i] {
            Some(j) => if j < coarse_vals.len() {
                Some(coarse_vals[j])
            } else {
                None
            },
            None => None,
        };
        out.push(entry);
        i += 1;
    }
    out
}

/// Walks a coarse grid against a fine grid, one fine index per step,
/// recording for each fine index the coarse index paired with it, if any.
pub struct Aligner {
    fine_len: usize,
    coarse_len: usize,
    cursor: usize,
    out: Vec<Option<usize>>,
}

impl Aligner {
    /// Number of samples in the fine grid.
    pub closed spec fn fine_len(&self) -> nat {
        self.fine_len as nat
    }

    /// Number of samples in the coarse grid.
    pub closed spec fn coarse_len(&self) -> nat {
        self.coarse_len as nat
    }

    /// The alignment entries recorded so far, one per fine index handled.
    pub closed spec fn result_so_far(&self) -> Seq<Option<usize>> {
        self.out@
    }

    /// How many coarse samples have been consumed so far.
    pub closed spec fn consumed(&self) -> nat {
        self.cursor as nat
    }

    /// Well-formedness: the cursor equals the number of matches recorded,
    /// never runs past the coarse grid, and the recorded entries have the
    /// alignment shape.
    pub closed spec fn wf(&self) -> bool {
        &&& self.out@.len() <= self.fine_len
        &&& self.cursor == match_count(self.out@)
        &&& self.cursor <= self.coarse_len
        &&& aligned_form(self.out@, self.coarse_len as nat)
    }

    /// Begin an alignment of a coarse grid of `coarse_len` samples against
    /// a fine grid of `fine_len` samples.
    pub fn new(fine_len: usize, coarse_len: usize) -> (r: Aligner)
        ensures
            r.wf(),
            r.fine_len() == fine_len,
            r.coarse_len() == coarse_len,
            r.result_so_far() == Seq::<Option<usize>>::empty(),
            r.consumed() == 0,
    {
        Aligner { fine_len, coarse_len, cursor: 0, out: Vec::new() }
    }

    /// The comparison owed next, if any: the pair of the next fine index
    /// and the coarse index under the cursor. `None` once every fine index
    /// is handled or the coarse grid is exhausted; in the latter case the
    /// remaining fine indices can only stay unpaired.
    pub fn candidate(&self) -> (r: Option<(usize, usize)>)
        requires
            self.wf(),
        ensures
            r is Some <==> (self.result_so_far().len() < self.fine_len() && self.consumed()
                < self.coarse_len()),
            r matches Some(p) ==> p.0 == self.result_so_far().len() && p.1 == self.consumed(),
    {
        if self.out.len() < self.fine_len && self.cursor < self.coarse_len {
            Some((self.out.len(), self.cursor))
        } else {
            None
        }
    }

    /// Whether every fine index has been handled.
    pub fn is_done(&self) -> (r: bool)
        requires
            self.wf(),
        ensures
            r <==> self.result_so_far().len() == self.fine_len(),
    {
        self.out.len() == self.fine_len
    }

    /// Record the outcome of the caller's tolerance comparison for the next
    /// fine index. A match pairs that fine index with the coarse index
    /// under the cursor and consumes it; a miss pairs it with nothing and
    /// consumes nothing. `matched` may only be reported when a candidate
    /// comparison exists.
    pub fn step(&mut self, matched: bool)
        requires
            old(self).wf(),
            old(self).result_so_far().len() < old(self).fine_len(),
            matched ==> old(self).consumed() < old(self).coarse_len(),
        ensures
            final(self).wf(),
            final(self).fine_len() == old(self).fine_len(),
            final(self).coarse_len() == old(self).coarse_len(),
            final(self).result_so_far() == old(self).result_so_far().push(
                if matched {
                    Some(old(self).consumed() as usize)
                } else {
                    None
                },
            ),
            final(self).consumed() == old(self).consumed() + (if matched {
                1nat
            } else {
                0nat
            }),
    {
        let ghost prev = *self;
        let entry = if matched {
            let c = self.cursor;
            self.cursor = self.cursor + 1;
            Some(c)
        } else {
            None
        };
        self.out.push(entry);
        proof {
            lemma_match_count_push(prev.out@, entry);
            assert forall|i: int| 0 <= i < self.out@.len() implies (#[trigger] self.out@[i] matches Some(j)
                ==> {
                    &&& j == match_count(self.out@.take(i))
                    &&& j < self.coarse_len
                }) by {
                if i < prev.out@.len() {
                    assert(self.out@[i] == prev.out@[i]);
                    assert(self.out@.take(i) =~= prev.out@.take(i));
                } else {
                    assert(self.out@[i] == entry);
                    assert(self.out@.take(i) =~= prev.out@);
                }
            }
        }
    }

    /// Hand back the alignment result: one entry per fine index, in fine
    /// grid order, each naming the coarse index paired with that fine index
    /// or nothing.
    pub fn finish(self) -> (r: Vec<Option<usize>>)
        requires
            self.wf(),
            self.result_so_far().len() == self.fine_len(),
        ensures
            r@ == self.result_so_far(),
            r@.len() == self.fine_len(),
            aligned_form(r@, self.coarse_len()),
            match_count(r@) == self.consumed(),
            match_count(r@) <= self.coarse_len(),
    {
        self.out
    }
}

} // verus!
