use vstd::prelude::*;
use crate::errors::CycleError;

verus! {

/// One pixel as a red, green, blue byte triple.
#[derive(Clone, Copy, PartialEq, Eq, Structural, Debug)]
pub struct Color {
    pub red: u8,
    pub green: u8,
    pub blue: u8,
}

/// How many pixels of `s` have exactly the color `c`.
pub open spec fn color_count(s: Seq<Color>, c: Color) -> nat
    decreases s.len(),
{
    if s.len() == 0 {
        0
    } else {
        color_count(s.drop_last(), c) + (if s.last() == c {
            1nat
        } else {
            0nat
        })
    }
}

/// `c` stands at index `i` of `s`, no color of `s` occurs more often than
/// `c`, and every color seen before index `i` occurs strictly less often.
/// The last clause makes `i` the first occurrence of `c` and settles ties
/// in favor of the color that appears first in column order.
pub open spec fn is_dominant_at(s: Seq<Color>, c: Color, i: int) -> bool {
    &&& 0 <= i < s.len()
    &&& s[i] == c
    &&& forall|j: int| 0 <= j < s.len() ==> color_count(s, #[trigger] s[j]) <= color_count(s, c)
    &&& forall|j: int| 0 <= j < i ==> color_count(s, #[trigger] s[j]) < color_count(s, c)
}

/// `c` is the dominant color of `s`: it occurs at least as often as every
/// other color, with ties resolved to the first-occurring color.
pub open spec fn is_dominant(s: Seq<Color>, c: Color) -> bool {
    exists|i: int| is_dominant_at(s, c, i)
}

/// Extending a prefix by one pixel raises the count of `c` by one exactly
/// when that pixel is `c`.
pub proof fn lemma_count_take_step(s: Seq<Color>, c: Color, j: int)
    requires
        0 <= j < s.len(),
    ensures
        color_count(s.take(j + 1), c) == color_count(s.take(j), c) + (if s[j] == c {
            1int
        } else {
            0int
        }),
{
    assert(s.take(j + 1).drop_last() =~= s.take(j));
    assert(s.take(j + 1).last() == s[j]);
}

fn count_matches(row: &Vec<Color>, c: Color) -> (n: usize)
    ensures
        n == color_count(row@, c),
{
    let mut n: usize = 0;
    let mut j: usize = 0;
    while j < row.len()
        invariant
            j <= row@.len(),
            n <= j,
            n == color_count(row@.take(j as int), c),
        decreases row@.len() - j,
    {
        proof {
            lemma_count_take_step(row@, c, j as int);
        }
        if row[j] == c {
            n = n + 1;
        }
        j = j + 1;
    }
    proof {
        assert(row@.take(row@.len() as int) =~= row@);
    }
    n
}

/// The dominant color of a non-empty row: the most frequent triple, the
/// first-occurring one if several are equally frequent.
pub fn dominant_color_nonempty(row: &Vec<Color>) -> (c: Color)
    requires
        row@.len() > 0,
    ensures
        is_dominant(row@, c),
{
    let mut best: Color = row[0];
    let mut best_idx: usize = 0;
    let mut best_count: usize = count_matches(row, best);
    let mut i: usize = 1;
    while i < row.len()
        invariant
            1 <= i <= row@.len(),
            best_idx < i,
            row@[best_idx as int] == best,
            best_count == color_count(row@, best),
            forall|j: int| 0 <= j < i ==> color_count(row@, #[trigger] row@[j]) <= best_count,
            forall|j: int| 0 <= j < best_idx ==> color_count(row@, #[trigger] row@[j]) < best_count,
        decreases row@.len() - i,
    {
        let candidate: Color = row[i];
        let candidate_count: usize = count_matches(row, candidate);
        if candidate_count > best_count {
            best = candidate;
            best_idx = i;
            best_count = candidate_count;
        }
        i = i + 1;
    }
    proof {
        assert(is_dominant_at(row@, best, best_idx as int));
    }
    best
}

/// The dominant color of a row, or `EmptyRow` for a row of no pixels,
/// which has no dominant color.
pub fn dominant_color(row: &Vec<Color>) -> (r: Result<Color, CycleError>)
    ensures
        r is Ok <==> row@.len() > 0,
        r is Err ==> r->Err_0 == CycleError::EmptyRow,
        r is Ok ==> is_dominant(row@, r->Ok_0),
{
    if row.len() == 0 {
        Err(CycleError::EmptyRow)
    } else {
        Ok(dominant_color_nonempty(row))
    }
}

/// A color that never occurs has count zero.
pub proof fn lemma_count_absent(s: Seq<Color>, c: Color)
    requires
        !s.contains(c),
    ensures
        color_count(s, c) == 0,
    decreases s.len(),
{
    if s.len() > 0 {
        assert(!s.drop_last().contains(c)) by {
            if s.drop_last().contains(c) {
                let j = choose|j: int|
                    0 <= j < s.drop_last().len() && s.drop_last()[j] == c;
                assert(s[j] == c);
            }
        }
        lemma_count_absent(s.drop_last(), c);
        assert(s[s.len() - 1] != c);
    }
}

/// The majority property: the dominant color occurs at least as often as
/// any color whatsoever, occurring in the row or not.
pub proof fn lemma_dominant_majority(s: Seq<Color>, c: Color, d: Color)
    requires
        is_dominant(s, c),
    ensures
        color_count(s, d) <= color_count(s, c),
{
    if s.contains(d) {
        let j = choose|j: int| 0 <= j < s.len() && s[j] == d;
        let i = choose|i: int| is_dominant_at(s, c, i);
        assert(color_count(s, s[j]) <= color_count(s, c));
    } else {
        lemma_count_absent(s, d);
    }
}

/// The witness index of a dominant color is its first occurrence.
pub proof fn lemma_dominant_witness_is_first(s: Seq<Color>, c: Color, i: int)
    requires
        is_dominant_at(s, c, i),
    ensures
        forall|k: int| 0 <= k < i ==> s[k] != c,
{
}

/// At most one color of a row is dominant: the definition is
/// deterministic even among colors of equal count.
pub proof fn lemma_dominant_unique(s: Seq<Color>, c1: Color, c2: Color)
    requires
        is_dominant(s, c1),
        is_dominant(s, c2),
    ensures
        c1 == c2,
{
    let i1 = choose|i: int| is_dominant_at(s, c1, i);
    let i2 = choose|i: int| is_dominant_at(s, c2, i);
    if i1 < i2 {
        assert(color_count(s, s[i1]) < color_count(s, c2));
        assert(color_count(s, c2) <= color_count(s, c1));
    } else if i2 < i1 {
        assert(color_count(s, s[i2]) < color_count(s, c1));
        assert(color_count(s, c1) <= color_count(s, c2));
    }
}

/// In a row whose pixels all have one color, that color, and only it, is
/// dominant.
pub proof fn lemma_uniform_row(s: Seq<Color>, c: Color)
    requires
        s.len() > 0,
        forall|i: int| 0 <= i < s.len() ==> s[i] == c,
    ensures
        is_dominant(s, c),
        forall|d: Color| is_dominant(s, d) ==> d == c,
{
    assert(is_dominant_at(s, c, 0));
    assert forall|d: Color| is_dominant(s, d) implies d == c by {
        let i = choose|i: int| is_dominant_at(s, d, i);
        assert(s[i] == d);
    }
}

/// A single-pixel row's dominant color is that pixel's color.
pub proof fn lemma_single_pixel(s: Seq<Color>)
    requires
        s.len() == 1,
    ensures
        is_dominant(s, s[0]),
        forall|d: Color| is_dominant(s, d) ==> d == s[0],
{
    lemma_uniform_row(s, s[0]);
}

/// Ties resolve to column order: any occurrence of a different color with
/// the same count lies strictly after the dominant color's witness index.
pub proof fn lemma_tie_breaks_first(s: Seq<Color>, c: Color, i: int, d: Color, j: int)
    requires
        is_dominant_at(s, c, i),
        0 <= j < s.len(),
        s[j] == d,
        d != c,
        color_count(s, d) == color_count(s, c),
    ensures
        i < j,
{
}

} // verus!
