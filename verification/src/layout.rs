//! Where the pieces of a joined text stand: the facts that the laws about
//! generated statements are proved from.
use vstd::prelude::*;
use crate::text::{concat_all, drop_last_char, join};

verus! {

/// Whether `t` stands in `s` from position `p` on.
pub open spec fn occurs_at(s: Seq<char>, t: Seq<char>, p: int) -> bool {
    0 <= p && p + t.len() <= s.len() && s.subrange(p, p + t.len()) == t
}

/// Where the `k`-th piece starts in `join(pieces, sep)`.
pub open spec fn join_offset(pieces: Seq<Seq<char>>, sep: Seq<char>, k: int) -> int {
    if k == 0 { 0 } else { (join(pieces.take(k), sep).len() + sep.len()) as int }
}

/// A text that occurs in `a` occurs at the same place in `a + b`.
pub proof fn lemma_occurs_in_prefix(a: Seq<char>, b: Seq<char>, t: Seq<char>, p: int)
    requires
        occurs_at(a, t, p),
    ensures
        occurs_at(a + b, t, p),
{
    assert((a + b).subrange(p, p + t.len()) =~= a.subrange(p, p + t.len()));
}

/// A text that occurs in `b` occurs shifted by `a.len()` in `a + b`.
pub proof fn lemma_occurs_in_suffix(a: Seq<char>, b: Seq<char>, t: Seq<char>, p: int)
    requires
        occurs_at(b, t, p),
    ensures
        occurs_at(a + b, t, a.len() + p),
{
    assert((a + b).subrange(a.len() + p, a.len() + p + t.len()) =~= b.subrange(p, p + t.len()));
}

/// Two texts that occur one right after the other occur together.
pub proof fn lemma_occurs_adjacent(s: Seq<char>, x: Seq<char>, y: Seq<char>, p: int)
    requires
        occurs_at(s, x, p),
        occurs_at(s, y, p + x.len()),
    ensures
        occurs_at(s, x + y, p),
{
    assert(s.subrange(p, p + x.len() + y.len()) =~= s.subrange(p, p + x.len()) + s.subrange(
        p + x.len(),
        p + x.len() + y.len(),
    ));
}

/// The text of the first `k + 1` pieces ends right after the `k`-th piece.
pub proof fn lemma_join_prefix_len(pieces: Seq<Seq<char>>, sep: Seq<char>, k: int)
    requires
        0 <= k < pieces.len(),
    ensures
        join(pieces.take(k + 1), sep).len() == join_offset(pieces, sep, k) + pieces[k].len(),
{
    let t = pieces.take(k + 1);
    if k > 0 {
        assert(t.drop_last() =~= pieces.take(k));
    }
}

/// In `join(pieces, sep)`, the `k`-th piece stands at `join_offset`, the
/// separator follows it unless it is the last, and the last piece ends the
/// text.
pub proof fn lemma_join_piece(pieces: Seq<Seq<char>>, sep: Seq<char>, k: int)
    requires
        0 <= k < pieces.len(),
    ensures
        occurs_at(join(pieces, sep), pieces[k], join_offset(pieces, sep, k)),
        k + 1 < pieces.len() ==> occurs_at(
            join(pieces, sep),
            sep,
            join_offset(pieces, sep, k) + pieces[k].len(),
        ),
        k + 1 < pieces.len() ==> join_offset(pieces, sep, k) + pieces[k].len() + sep.len() + pieces.last().len()
            <= join(pieces, sep).len(),
        k + 1 == pieces.len() ==> join(pieces, sep).len() == join_offset(pieces, sep, k) + pieces[k].len(),
    decreases pieces.len(),
{
    let n = pieces.len();
    let j = join(pieces, sep);
    if n == 1 {
        assert(j.subrange(0, pieces[0].len() as int) =~= pieces[0]);
    } else {
        let d = pieces.drop_last();
        let jd = join(d, sep);
        assert(j == jd + sep + pieces.last());
        if k == n - 1 {
            assert(pieces.take(k) =~= d);
            let off = join_offset(pieces, sep, k);
            assert(off == jd.len() + sep.len());
            assert(j.subrange(off, off + pieces[k].len()) =~= pieces.last());
        } else {
            lemma_join_piece(d, sep, k);
            assert(d.take(k) =~= pieces.take(k));
            assert(join_offset(d, sep, k) == join_offset(pieces, sep, k));
            assert(d[k] == pieces[k]);
            let off = join_offset(pieces, sep, k);
            lemma_occurs_in_prefix(jd, sep + pieces.last(), pieces[k], off);
            assert(jd + (sep + pieces.last()) =~= j);
            if k + 1 < d.len() {
                lemma_occurs_in_prefix(jd, sep + pieces.last(), sep, off + pieces[k].len());
            } else {
                assert(jd.len() == off + pieces[k].len());
                assert(j.subrange(off + pieces[k].len(), off + pieces[k].len() + sep.len()) =~= sep);
            }
        }
    }
}

/// Writing the pieces one after another is joining them with nothing
/// between.
pub proof fn lemma_concat_is_join(pieces: Seq<Seq<char>>)
    ensures
        concat_all(pieces) == join(pieces, Seq::<char>::empty()),
    decreases pieces.len(),
{
    if pieces.len() > 0 {
        lemma_concat_is_join(pieces.drop_last());
        if pieces.len() == 1 {
            assert(pieces.drop_last() =~= Seq::<Seq<char>>::empty());
            assert(concat_all(pieces) =~= pieces[0]);
        } else {
            assert(join(pieces, Seq::<char>::empty()) =~= join(pieces.drop_last(), Seq::<char>::empty())
                + pieces.last());
        }
    }
}

/// Joined pieces stand in order: a later piece starts after an earlier one
/// ends.
pub proof fn lemma_join_offsets_increase(pieces: Seq<Seq<char>>, sep: Seq<char>, j: int, k: int)
    requires
        0 <= j < k < pieces.len(),
    ensures
        join_offset(pieces, sep, j) + pieces[j].len() + sep.len() <= join_offset(pieces, sep, k),
    decreases k - j,
{
    lemma_join_prefix_len(pieces, sep, j);
    if j + 1 < k {
        lemma_join_prefix_len(pieces, sep, j + 1);
        lemma_join_offsets_increase(pieces, sep, j + 1, k);
    }
}

/// The pieces written one after another after `head`, with the very last
/// character dropped and `tail` added (the shape of a list whose items each
/// end in a separator): every piece but the last stands whole, in order;
/// the last stands without its final character and is followed by `tail`.
pub proof fn lemma_piece_in_trimmed_list(head: Seq<char>, pieces: Seq<Seq<char>>, tail: Seq<char>, i: int)
    requires
        0 <= i < pieces.len(),
        pieces.last().len() > 0,
    ensures
        i + 1 < pieces.len() ==> occurs_at(
            drop_last_char(head + concat_all(pieces)) + tail,
            pieces[i],
            head.len() + join_offset(pieces, Seq::<char>::empty(), i),
        ),
        i + 1 == pieces.len() ==> occurs_at(
            drop_last_char(head + concat_all(pieces)) + tail,
            pieces[i].drop_last() + tail,
            head.len() + join_offset(pieces, Seq::<char>::empty(), i),
        ),
{
    let n = pieces.len() as int;
    let e = Seq::<char>::empty();
    let body = concat_all(pieces);
    lemma_concat_is_join(pieces);
    let x = head + body;
    let q = drop_last_char(x) + tail;
    let off = join_offset(pieces, e, i);
    let p = head.len() + off;
    lemma_join_piece(pieces, e, i);
    lemma_occurs_in_suffix(head, body, pieces[i], off);
    assert(x.len() > 0);
    assert(drop_last_char(x) == x.drop_last());
    if i + 1 < n {
        assert(x.drop_last().subrange(p, p + pieces[i].len()) =~= x.subrange(p, p + pieces[i].len()));
        lemma_occurs_in_prefix(x.drop_last(), tail, pieces[i], p);
    } else {
        let t = pieces[i].drop_last();
        assert(x.subrange(p, p + pieces[i].len()) == pieces[i]);
        assert(x.drop_last().subrange(p, p + t.len()) =~= t);
        lemma_occurs_in_prefix(x.drop_last(), tail, t, p);
        assert(x.drop_last().len() == p + t.len());
        assert(q.subrange(p + t.len(), p + t.len() + tail.len()) =~= tail);
        lemma_occurs_adjacent(q, t, tail, p);
    }
}

} // verus!
