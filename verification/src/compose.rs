//! The depth compositor: turns the unordered draw entries gathered
//! for one frame into the back-to-front list the renderer walks.
//!
//! Entries whose resolved depth is zero are hidden and discarded;
//! the rest are ordered by depth descending (higher depth is farther
//! back and painted first), and the sort is stable: entries sharing
//! a depth keep the order in which they were handed in, so a frame's
//! draw order is reproducible run over run.
//!
//! The whole result is pinned down by [`compose_spec`], a stable
//! insertion sort at the specification level; [`lemma_compose_back_to_front`]
//! and [`lemma_compose_stable`] state its ordering and stability as
//! standalone laws.

use vstd::prelude::*;

use crate::sprite::DrawEntry;

verus! {

/// Whether an entry is visible: depth zero hides it.
pub open spec fn entry_visible(e: DrawEntry) -> bool {
    e.attrs.depth != 0
}

/// The visible entries of a frame, in their original order.
pub open spec fn visible_filter(s: Seq<DrawEntry>) -> Seq<DrawEntry> {
    s.filter(|e: DrawEntry| entry_visible(e))
}

/// Stable descending insertion: the new entry goes behind every
/// existing entry at least as deep, in front of the first strictly
/// shallower one.
pub open spec fn insert_entry(s: Seq<DrawEntry>, e: DrawEntry) -> Seq<DrawEntry>
    decreases s.len(),
{
    if s.len() == 0 {
        seq![e]
    } else if s[0].attrs.depth >= e.attrs.depth {
        seq![s[0]] + insert_entry(s.drop_first(), e)
    } else {
        seq![e] + s
    }
}

/// The position at which [`insert_entry`] places the new entry: the
/// length of the prefix of entries at least as deep.
pub open spec fn insert_pos(s: Seq<DrawEntry>, e: DrawEntry) -> int
    decreases s.len(),
{
    if s.len() == 0 {
        0
    } else if s[0].attrs.depth >= e.attrs.depth {
        1 + insert_pos(s.drop_first(), e)
    } else {
        0
    }
}

/// Inserting the remaining entries, in order, into an accumulator.
pub open spec fn sort_from(acc: Seq<DrawEntry>, rest: Seq<DrawEntry>) -> Seq<DrawEntry>
    decreases rest.len(),
{
    if rest.len() == 0 {
        acc
    } else {
        sort_from(insert_entry(acc, rest[0]), rest.drop_first())
    }
}

/// What composing a frame yields: the visible entries, stably sorted
/// by depth descending.
pub open spec fn compose_spec(s: Seq<DrawEntry>) -> Seq<DrawEntry> {
    sort_from(Seq::empty(), visible_filter(s))
}

/// Back-to-front order: depths never increase along the list.
pub open spec fn back_to_front(s: Seq<DrawEntry>) -> bool {
    forall|i: int, j: int|
        0 <= i < j < s.len() ==> (#[trigger] s[i]).attrs.depth >= (#[trigger] s[j]).attrs.depth
}

/// The subsequence of entries at exactly the given depth, in order.
pub open spec fn depth_filter(s: Seq<DrawEntry>, d: u32) -> Seq<DrawEntry> {
    s.filter(|e: DrawEntry| e.attrs.depth == d)
}

/// A sequence in which no element matches the predicate filters to
/// the empty sequence.
proof fn lemma_filter_none(s: Seq<DrawEntry>, pred: spec_fn(DrawEntry) -> bool)
    requires
        forall|i: int| 0 <= i < s.len() ==> !pred(#[trigger] s[i]),
    ensures
        s.filter(pred) == Seq::<DrawEntry>::empty(),
    decreases s.len(),
{
    reveal(Seq::filter);
    if s.len() > 0 {
        lemma_filter_none(s.drop_last(), pred);
    }
}

/// Filtering a one-entry sequence keeps or drops that entry.
proof fn lemma_filter_singleton(e: DrawEntry, pred: spec_fn(DrawEntry) -> bool)
    ensures
        seq![e].filter(pred) == if pred(e) {
            seq![e]
        } else {
            Seq::<DrawEntry>::empty()
        },
{
    reveal(Seq::filter);
    assert(seq![e].drop_last() =~= Seq::<DrawEntry>::empty());
    assert(seq![e].last() == e);
    if pred(e) {
        assert(Seq::<DrawEntry>::empty().filter(pred).push(e) =~= seq![e]);
    }
}

/// The shape of a stable insertion: the new entry lands at
/// [`insert_pos`], between the prefix of entries at least as deep
/// and the rest.
proof fn lemma_insert_shape(s: Seq<DrawEntry>, e: DrawEntry)
    ensures
        0 <= insert_pos(s, e) <= s.len(),
        insert_entry(s, e) == s.take(insert_pos(s, e)) + seq![e] + s.skip(insert_pos(s, e)),
        forall|j: int| 0 <= j < insert_pos(s, e) ==> (#[trigger] s[j]).attrs.depth
            >= e.attrs.depth,
        insert_pos(s, e) < s.len() ==> s[insert_pos(s, e)].attrs.depth < e.attrs.depth,
    decreases s.len(),
{
    let k = insert_pos(s, e);
    if s.len() == 0 {
        assert(insert_entry(s, e) =~= s.take(0) + seq![e] + s.skip(0));
    } else if s[0].attrs.depth >= e.attrs.depth {
        lemma_insert_shape(s.drop_first(), e);
        let k1 = insert_pos(s.drop_first(), e);
        assert(s.take(k) =~= seq![s[0]] + s.drop_first().take(k1));
        assert(s.skip(k) =~= s.drop_first().skip(k1));
        assert(insert_entry(s, e) =~= s.take(k) + seq![e] + s.skip(k));
        assert forall|j: int| 0 <= j < k implies (#[trigger] s[j]).attrs.depth
            >= e.attrs.depth by {
            if j > 0 {
                assert(s[j] == s.drop_first()[j - 1]);
            }
        }
    } else {
        assert(insert_entry(s, e) =~= s.take(0) + seq![e] + s.skip(0));
    }
}

/// Inserting into a back-to-front list keeps it back-to-front.
proof fn lemma_insert_back_to_front(s: Seq<DrawEntry>, e: DrawEntry)
    requires
        back_to_front(s),
    ensures
        back_to_front(insert_entry(s, e)),
{
    lemma_insert_shape(s, e);
    let k = insert_pos(s, e);
    let r = insert_entry(s, e);
    assert forall|i: int, j: int|
        0 <= i < j < r.len() implies (#[trigger] r[i]).attrs.depth
        >= (#[trigger] r[j]).attrs.depth by {
        if i < k {
            assert(r[i] == s[i]);
        } else if i == k {
            assert(r[i] == e);
        } else {
            assert(r[i] == s[i - 1]);
        }
        if j < k {
            assert(r[j] == s[j]);
        } else if j == k {
            assert(r[j] == e);
        } else {
            assert(r[j] == s[j - 1]);
        }
    }
}

/// Inserting preserves per-depth subsequences: the new entry joins
/// the end of its own depth class and no other class changes.
proof fn lemma_insert_depth_filter(s: Seq<DrawEntry>, e: DrawEntry, d: u32)
    requires
        back_to_front(s),
    ensures
        depth_filter(insert_entry(s, e), d) == if e.attrs.depth == d {
            depth_filter(s, d).push(e)
        } else {
            depth_filter(s, d)
        },
{
    lemma_insert_shape(s, e);
    let k = insert_pos(s, e);
    let pred = |x: DrawEntry| x.attrs.depth == d;
    let front = s.take(k);
    let back = s.skip(k);
    Seq::filter_distributes_over_add(front + seq![e], back, pred);
    Seq::filter_distributes_over_add(front, seq![e], pred);
    Seq::filter_distributes_over_add(front, back, pred);
    assert(s =~= front + back);
    reveal(Seq::filter);
    assert(seq![e].drop_last() =~= Seq::<DrawEntry>::empty());
    if e.attrs.depth == d {
        assert forall|i: int| 0 <= i < back.len() implies !pred(#[trigger] back[i]) by {
            assert(back[i] == s[k + i]);
            assert(s[k].attrs.depth < e.attrs.depth);
            assert(s[k + i].attrs.depth <= s[k].attrs.depth);
        }
        lemma_filter_none(back, pred);
        assert(depth_filter(insert_entry(s, e), d) =~= depth_filter(s, d).push(e));
    } else {
        lemma_filter_singleton(e, pred);
        assert(depth_filter(insert_entry(s, e), d) =~= depth_filter(s, d));
    }
}

/// Inserting a visible entry among visible entries leaves no hidden
/// entry in the list.
proof fn lemma_insert_visible(s: Seq<DrawEntry>, e: DrawEntry)
    requires
        forall|i: int| 0 <= i < s.len() ==> entry_visible(#[trigger] s[i]),
        entry_visible(e),
    ensures
        forall|i: int|
            0 <= i < insert_entry(s, e).len() ==> entry_visible(#[trigger] insert_entry(s, e)[i]),
{
    lemma_insert_shape(s, e);
    let k = insert_pos(s, e);
    let r = insert_entry(s, e);
    assert forall|i: int| 0 <= i < r.len() implies entry_visible(#[trigger] r[i]) by {
        if i < k {
            assert(r[i] == s[i]);
        } else if i == k {
            assert(r[i] == e);
        } else {
            assert(r[i] == s[i - 1]);
        }
    }
}

/// Sorting the rest into a back-to-front accumulator yields a
/// back-to-front list whose per-depth subsequences are those of the
/// accumulator followed by those of the rest, and which is all
/// visible if its inputs are.
proof fn lemma_sort_from_ensures(acc: Seq<DrawEntry>, rest: Seq<DrawEntry>, d: u32)
    requires
        back_to_front(acc),
    ensures
        back_to_front(sort_from(acc, rest)),
        depth_filter(sort_from(acc, rest), d) == depth_filter(acc, d) + depth_filter(rest, d),
        (forall|i: int| 0 <= i < acc.len() ==> entry_visible(#[trigger] acc[i])) && (forall|i: int|
            0 <= i < rest.len() ==> entry_visible(#[trigger] rest[i])) ==> forall|i: int|
            0 <= i < sort_from(acc, rest).len() ==> entry_visible(
                #[trigger] sort_from(acc, rest)[i],
            ),
    decreases rest.len(),
{
    let pred = |x: DrawEntry| x.attrs.depth == d;
    if rest.len() == 0 {
        assert(depth_filter(rest, d) =~= Seq::<DrawEntry>::empty()) by {
            lemma_filter_none(rest, pred);
        }
        assert(depth_filter(sort_from(acc, rest), d) =~= depth_filter(acc, d) + depth_filter(
            rest,
            d,
        ));
    } else {
        let e = rest[0];
        let acc1 = insert_entry(acc, e);
        lemma_insert_back_to_front(acc, e);
        lemma_insert_depth_filter(acc, e, d);
        lemma_sort_from_ensures(acc1, rest.drop_first(), d);
        assert(sort_from(acc, rest) == sort_from(acc1, rest.drop_first()));
        assert(rest =~= seq![e] + rest.drop_first());
        Seq::filter_distributes_over_add(seq![e], rest.drop_first(), pred);
        lemma_filter_singleton(e, pred);
        assert(depth_filter(rest, d) == seq![e].filter(pred) + depth_filter(rest.drop_first(), d));
        if e.attrs.depth == d {
            assert(depth_filter(acc1, d) == depth_filter(acc, d).push(e));
            assert(depth_filter(acc, d).push(e) =~= depth_filter(acc, d) + seq![e]);
        }
        assert(depth_filter(sort_from(acc, rest), d) =~= depth_filter(acc, d) + depth_filter(
            rest,
            d,
        ));
        if (forall|i: int| 0 <= i < acc.len() ==> entry_visible(#[trigger] acc[i])) && (forall|
            i: int,
        | 0 <= i < rest.len() ==> entry_visible(#[trigger] rest[i])) {
            lemma_insert_visible(acc, e);
            assert(forall|i: int|
                0 <= i < rest.drop_first().len() ==> entry_visible(
                    #[trigger] rest.drop_first()[i],
                ));
        }
    }
}

/// The composed list is back-to-front — for entries of distinct
/// positive depths, the deepest is drawn first and the shallowest
/// last — and no hidden (depth zero) entry ever appears in it.
pub proof fn lemma_compose_back_to_front(s: Seq<DrawEntry>)
    ensures
        back_to_front(compose_spec(s)),
        forall|i: int|
            0 <= i < compose_spec(s).len() ==> (#[trigger] compose_spec(s)[i]).attrs.depth != 0,
{
    let vis = visible_filter(s);
    assert(forall|i: int| 0 <= i < vis.len() ==> entry_visible(#[trigger] vis[i])) by {
        assert forall|i: int| 0 <= i < vis.len() implies entry_visible(#[trigger] vis[i]) by {
            Seq::lemma_filter_pred(s, |e: DrawEntry| entry_visible(e), i);
        }
    }
    lemma_sort_from_ensures(Seq::empty(), vis, 0);
}

/// Stability: for every depth, the composed list's entries of that
/// depth are exactly the visible entries of that depth in their
/// original order. In particular two entries sharing a depth always
/// keep their relative input order, and with the composed list fully
/// determined by its input, repeated composition of the same frame
/// reproduces the same order.
pub proof fn lemma_compose_stable(s: Seq<DrawEntry>, d: u32)
    ensures
        depth_filter(compose_spec(s), d) == depth_filter(visible_filter(s), d),
        d != 0 ==> depth_filter(compose_spec(s), d) == depth_filter(s, d),
{
    let vis = visible_filter(s);
    lemma_sort_from_ensures(Seq::empty(), vis, d);
    let pred = |x: DrawEntry| x.attrs.depth == d;
    assert(depth_filter(Seq::empty(), d) =~= Seq::<DrawEntry>::empty()) by {
        lemma_filter_none(Seq::empty(), pred);
    }
    assert(depth_filter(compose_spec(s), d) =~= depth_filter(vis, d));
    if d != 0 {
        lemma_depth_filter_of_visible(s, d);
    }
}

/// Filtering a positive depth class commutes with discarding hidden
/// entries, since hidden entries have depth zero.
proof fn lemma_depth_filter_of_visible(s: Seq<DrawEntry>, d: u32)
    requires
        d != 0,
    ensures
        depth_filter(visible_filter(s), d) == depth_filter(s, d),
    decreases s.len(),
{
    reveal(Seq::filter);
    let vpred = |e: DrawEntry| entry_visible(e);
    let pred = |x: DrawEntry| x.attrs.depth == d;
    if s.len() == 0 {
    } else {
        lemma_depth_filter_of_visible(s.drop_last(), d);
        let e = s.last();
        assert(visible_filter(s) == if vpred(e) {
            visible_filter(s.drop_last()).push(e)
        } else {
            visible_filter(s.drop_last())
        });
        if vpred(e) {
            let vd = visible_filter(s.drop_last());
            assert(vd.push(e).drop_last() =~= vd);
            assert(vd.push(e).last() == e);
        }
    }
}

/// Composes one frame's draw entries: discards every hidden entry
/// (resolved depth zero) and stably sorts the rest by depth
/// descending, so the result runs back-to-front and entries of equal
/// depth keep their input order.
pub fn compose(entries: Vec<DrawEntry>) -> (r: Vec<DrawEntry>)
    ensures
        r@ == compose_spec(entries@),
{
    let ghost s = entries@;
    let mut rest = entries;
    let mut out: Vec<DrawEntry> = Vec::new();
    let ghost done: Seq<DrawEntry> = Seq::empty();
    proof {
        assert(visible_filter(done) =~= Seq::<DrawEntry>::empty()) by {
            reveal(Seq::filter);
        }
        assert(s =~= done + rest@);
    }
    while rest.len() > 0
        invariant
            s == done + rest@,
            out@ == sort_from(Seq::empty(), visible_filter(done)),
            back_to_front(out@),
        decreases rest@.len(),
    {
        let e = rest.remove(0);
        let ghost done_prev = done;
        proof {
            done = done.push(e);
            assert(s =~= done + rest@);
        }
        if e.attrs.depth != 0 {
            let mut k: usize = 0;
            while k < out.len() && out[k].attrs.depth >= e.attrs.depth
                invariant
                    k <= out.len(),
                    forall|j: int|
                        0 <= j < k ==> (#[trigger] out@[j]).attrs.depth >= e.attrs.depth,
                decreases out.len() - k,
            {
                k += 1;
            }
            let ghost old_out = out@;
            out.insert(k, e);
            proof {
                lemma_insert_shape(old_out, e);
                let kk = insert_pos(old_out, e);
                if kk < k {
                    assert(old_out[kk].attrs.depth >= e.attrs.depth);
                } else if k < kk {
                    assert(old_out[k as int].attrs.depth >= e.attrs.depth);
                }
                assert(kk == k);
                assert(out@ =~= old_out.take(k as int) + seq![e] + old_out.skip(k as int));
                assert(out@ == insert_entry(old_out, e));
                lemma_insert_back_to_front(old_out, e);
                lemma_visible_snoc(done_prev, e);
                lemma_sort_from_snoc(Seq::empty(), visible_filter(done_prev), e);
            }
        } else {
            proof {
                lemma_visible_snoc(done_prev, e);
            }
        }
    }
    proof {
        assert(done =~= s);
    }
    out
}

/// Appending one entry to a frame extends its visible subsequence by
/// that entry exactly when the entry is visible.
proof fn lemma_visible_snoc(s: Seq<DrawEntry>, e: DrawEntry)
    ensures
        visible_filter(s.push(e)) == if entry_visible(e) {
            visible_filter(s).push(e)
        } else {
            visible_filter(s)
        },
{
    reveal(Seq::filter);
    assert(s.push(e).drop_last() =~= s);
    assert(s.push(e).last() == e);
}

/// Sorting with one more trailing entry is inserting that entry into
/// the sorted rest.
proof fn lemma_sort_from_snoc(acc: Seq<DrawEntry>, rest: Seq<DrawEntry>, e: DrawEntry)
    ensures
        sort_from(acc, rest.push(e)) == insert_entry(sort_from(acc, rest), e),
    decreases rest.len(),
{
    if rest.len() == 0 {
        assert(rest.push(e).drop_first() =~= Seq::<DrawEntry>::empty());
        assert(sort_from(acc, rest.push(e)) == sort_from(insert_entry(acc, e), Seq::empty()));
    } else {
        assert(rest.push(e)[0] == rest[0]);
        assert(rest.push(e).drop_first() =~= rest.drop_first().push(e));
        lemma_sort_from_snoc(insert_entry(acc, rest[0]), rest.drop_first(), e);
    }
}

} // verus!
