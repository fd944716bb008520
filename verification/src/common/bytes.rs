//! Runs of bytes put one behind the other.

use vstd::prelude::*;

verus! {

/// The runs of bytes from position `from` on, one behind the other, behind
/// `found`.
pub open spec fn joined(parts: Seq<Seq<u8>>, from: int, found: Seq<u8>) -> Seq<u8>
    decreases parts.len() - from,
{
    if from < 0 || from >= parts.len() {
        found
    } else {
        joined(parts, from + 1, found + parts[from])
    }
}

/// The number of bytes of the runs from position `from` on.
pub open spec fn size_from(parts: Seq<Seq<u8>>, from: int) -> int
    decreases parts.len() - from,
{
    if from < 0 || from >= parts.len() {
        0
    } else {
        parts[from].len() + size_from(parts, from + 1)
    }
}

/// Runs of bytes take no negative number of bytes.
pub proof fn lemma_size_not_negative(parts: Seq<Seq<u8>>, from: int)
    ensures
        size_from(parts, from) >= 0,
    decreases parts.len() - from,
{
    if 0 <= from < parts.len() {
        lemma_size_not_negative(parts, from + 1);
    }
}

/// A part of a part: the bytes from `low` to `high` of the bytes from `from`
/// to `to`.
pub proof fn lemma_subrange_of_subrange(bytes: Seq<u8>, from: int, to: int, low: int, high: int)
    requires
        0 <= from <= to <= bytes.len(),
        0 <= low <= high <= to - from,
    ensures
        bytes.subrange(from, to).subrange(low, high) == bytes.subrange(from + low, from + high),
{
    assert(bytes.subrange(from, to).subrange(low, high) =~= bytes.subrange(from + low, from + high));
}

/// The joined runs begin with `found` and are as long as `found` and the runs
/// together.
pub proof fn lemma_joined_length(parts: Seq<Seq<u8>>, from: int, found: Seq<u8>)
    requires
        0 <= from <= parts.len(),
    ensures
        joined(parts, from, found).len() == found.len() + size_from(parts, from),
        size_from(parts, from) >= 0,
        joined(parts, from, found).subrange(0, found.len() as int) == found,
    decreases parts.len() - from,
{
    let all = joined(parts, from, found);
    lemma_size_not_negative(parts, from);
    if from < parts.len() {
        let longer = found + parts[from];
        lemma_joined_length(parts, from + 1, longer);
        lemma_subrange_of_subrange(all, 0, longer.len() as int, 0, found.len() as int);
        assert(longer.subrange(0, found.len() as int) =~= found);
    } else {
        assert(all.subrange(0, found.len() as int) =~= found);
    }
}

/// Where a run stands among the joined runs: behind `found` and the runs
/// before it.
pub proof fn lemma_joined_at(parts: Seq<Seq<u8>>, from: int, found: Seq<u8>, i: int)
    requires
        0 <= from <= i < parts.len(),
    ensures
        0 <= size_from(parts, i + 1) <= size_from(parts, i) <= size_from(parts, from),
        size_from(parts, i) == parts[i].len() + size_from(parts, i + 1),
        joined(parts, from, found).len() == found.len() + size_from(parts, from),
        joined(parts, from, found).subrange(
            found.len() + size_from(parts, from) - size_from(parts, i),
            found.len() + size_from(parts, from) - size_from(parts, i + 1),
        ) == parts[i],
    decreases i - from,
{
    let all = joined(parts, from, found);
    let longer = found + parts[from];
    lemma_size_not_negative(parts, i + 1);
    lemma_joined_length(parts, from, found);
    if i == from {
        lemma_joined_length(parts, from + 1, longer);
        lemma_subrange_of_subrange(
            all,
            0,
            longer.len() as int,
            found.len() as int,
            longer.len() as int,
        );
        assert(longer.subrange(found.len() as int, longer.len() as int) =~= parts[from]);
    } else {
        lemma_joined_at(parts, from + 1, longer, i);
    }
}

/// Joining behind `found` is `found` and the runs joined behind nothing.
pub proof fn lemma_joined_behind(parts: Seq<Seq<u8>>, from: int, found: Seq<u8>)
    requires
        0 <= from <= parts.len(),
    ensures
        joined(parts, from, found) == found + joined(parts, from, Seq::empty()),
    decreases parts.len() - from,
{
    if from < parts.len() {
        lemma_joined_behind(parts, from + 1, found + parts[from]);
        lemma_joined_behind(parts, from + 1, Seq::<u8>::empty() + parts[from]);
        assert(Seq::<u8>::empty() + parts[from] =~= parts[from]);
        assert(found + parts[from] + joined(parts, from + 1, Seq::empty()) =~= found + (parts[from]
            + joined(parts, from + 1, Seq::empty())));
    } else {
        assert(found + Seq::<u8>::empty() =~= found);
    }
}

} // verus!
