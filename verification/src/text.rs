//! The script as a flattened character sequence, and the index map from a
//! flattened position back to (line index, position within that line).

use vstd::prelude::*;

verus! {

/// The lines joined into one flat character sequence, in order.
pub open spec fn flat_lines(lines: Seq<Seq<char>>) -> Seq<char>
    decreases lines.len(),
{
    if lines.len() == 0 {
        Seq::empty()
    } else {
        lines.first() + flat_lines(lines.drop_first())
    }
}

/// The lengths of the lines, in order.
pub open spec fn lens_of(lines: Seq<Seq<char>>) -> Seq<usize> {
    lines.map_values(|l: Seq<char>| l.len() as usize)
}

/// The (line index, position within line) pairs of one line of length `len`,
/// the line standing at index `first` among the lines.
pub open spec fn line_block(len: usize, first: int) -> Seq<(usize, usize)> {
    Seq::new(len as nat, |j: int| ((first as usize), (j as usize)))
}

/// The index map for lines of the given lengths, the first of them standing
/// at line index `first`: entry `i` names the line and the position within
/// it of the character at flattened index `i`.
pub open spec fn metas_from(lens: Seq<usize>, first: int) -> Seq<(usize, usize)>
    decreases lens.len(),
{
    if lens.len() == 0 {
        Seq::empty()
    } else {
        line_block(lens.first(), first) + metas_from(lens.drop_first(), first + 1)
    }
}

/// The index map of a whole script given as line lengths.
pub open spec fn line_metas(lens: Seq<usize>) -> Seq<(usize, usize)> {
    metas_from(lens, 0)
}

/// Flattening one more line appends exactly that line's characters.
pub proof fn lemma_flat_lines_snoc(lines: Seq<Seq<char>>, i: int)
    requires
        0 <= i < lines.len(),
    ensures
        flat_lines(lines.take(i + 1)) == flat_lines(lines.take(i)) + lines[i],
    decreases i,
{
    if i == 0 {
        assert(flat_lines(Seq::<Seq<char>>::empty()) == Seq::<char>::empty());
        assert(lines.take(1).drop_first() =~= Seq::<Seq<char>>::empty());
        assert(lines.take(0) =~= Seq::<Seq<char>>::empty());
        assert(flat_lines(lines.take(1)) =~= flat_lines(lines.take(0)) + lines[0]);
    } else {
        let rest = lines.drop_first();
        assert(lines.take(i + 1).drop_first() =~= rest.take(i));
        assert(lines.take(i).drop_first() =~= rest.take(i - 1));
        lemma_flat_lines_snoc(rest, i - 1);
        assert(flat_lines(lines.take(i + 1)) =~= flat_lines(lines.take(i)) + lines[i]);
    }
}

/// Extending the index map by one more line appends exactly that line's
/// block of entries.
pub proof fn lemma_metas_from_snoc(lens: Seq<usize>, first: int, i: int)
    requires
        0 <= i < lens.len(),
    ensures
        metas_from(lens.take(i + 1), first) == metas_from(lens.take(i), first) + line_block(
            lens[i],
            first + i,
        ),
    decreases i,
{
    if i == 0 {
        assert(metas_from(Seq::<usize>::empty(), first + 1) == Seq::<(usize, usize)>::empty());
        assert(metas_from(Seq::<usize>::empty(), first) == Seq::<(usize, usize)>::empty());
        assert(lens.take(1).drop_first() =~= Seq::<usize>::empty());
        assert(lens.take(0) =~= Seq::<usize>::empty());
        assert(metas_from(lens.take(1), first) =~= metas_from(lens.take(0), first) + line_block(
            lens[0],
            first,
        ));
    } else {
        let rest = lens.drop_first();
        assert(lens.take(i + 1).drop_first() =~= rest.take(i));
        assert(lens.take(i).drop_first() =~= rest.take(i - 1));
        lemma_metas_from_snoc(rest, first + 1, i - 1);
        assert(metas_from(lens.take(i + 1), first) =~= metas_from(lens.take(i), first)
            + line_block(lens[i], first + i));
    }
}

/// Every entry of the index map names a line that exists and a position
/// inside that line, and line indices fit in `usize` when the map is read
/// from line index 0.
pub proof fn lemma_metas_valid(lens: Seq<usize>, first: int, i: int)
    requires
        0 <= first,
        first + lens.len() <= usize::MAX,
        0 <= i < metas_from(lens, first).len(),
    ensures
        first <= metas_from(lens, first)[i].0 < first + lens.len(),
        metas_from(lens, first)[i].1 < lens[metas_from(lens, first)[i].0 - first],
    decreases lens.len(),
{
    let m = metas_from(lens, first);
    let head: usize = lens.first();
    if i < head {
        assert(m[i] == ((first as usize), (i as usize)));
    } else {
        let rest = lens.drop_first();
        lemma_metas_valid(rest, first + 1, i - head);
        assert(m[i] == metas_from(rest, first + 1)[i - head]);
        assert(lens[m[i].0 - first] == rest[m[i].0 - (first + 1)]);
    }
}

} // verus!
