//! Stable sorting and run grouping of fragments, done by `itertools`.
//!
//! The functions here are the only ones of the compositor whose contracts are
//! taken on trust: each states what the documentation of the `itertools`
//! adaptor it calls promises.

use crate::pixel::{depth_of, get_depth, Rgba};
use itertools::Itertools;
use vstd::prelude::*;

verus! {

/// A covered pixel of one render pass.
#[derive(Clone, Copy, Debug, PartialEq, Eq, Structural)]
pub struct Fragment {
    pub x: u32,
    pub y: u32,
    pub color: Rgba,
}

impl Fragment {
    /// The depth packed into the fragment's colour.
    pub fn decoded_depth(&self) -> (depth: u16)
        ensures
            depth == depth_of(self.color),
    {
        get_depth(&self.color)
    }
}

/// The order of pixel positions: by column, then by row.
pub open spec fn pixel_before_or_at(a: Fragment, b: Fragment) -> bool {
    a.x < b.x || (a.x == b.x && a.y <= b.y)
}

pub open spec fn ordered_by_pixel(s: Seq<Fragment>) -> bool {
    forall|i: int, j: int| 0 <= i < j < s.len() ==> pixel_before_or_at(s[i], s[j])
}

pub open spec fn is_at(x: u32, y: u32) -> spec_fn(Fragment) -> bool {
    |f: Fragment| f.x == x && f.y == y
}

/// The fragments of `s` that lie on pixel `(x, y)`, in the order of `s`.
pub open spec fn fragments_at(s: Seq<Fragment>, x: u32, y: u32) -> Seq<Fragment> {
    s.filter(is_at(x, y))
}

pub open spec fn ordered_by_depth(s: Seq<Rgba>) -> bool {
    forall|i: int, j: int| 0 <= i < j < s.len() ==> depth_of(s[i]) <= depth_of(s[j])
}

pub open spec fn has_depth(depth: u16) -> spec_fn(Rgba) -> bool {
    |c: Rgba| depth_of(c) == depth
}

/// The colours of `s` that carry `depth`, in the order of `s`.
pub open spec fn colors_at_depth(s: Seq<Rgba>, depth: u16) -> Seq<Rgba> {
    s.filter(has_depth(depth))
}

/// `out` is `inp` sorted by depth, nearest first, with colours of equal depth
/// left in the order they had.
pub open spec fn is_depth_ordering(out: Seq<Rgba>, inp: Seq<Rgba>) -> bool {
    &&& out.len() == inp.len()
    &&& ordered_by_depth(out)
    &&& forall|depth: u16| #[trigger] colors_at_depth(out, depth) == colors_at_depth(inp, depth)
}

/// A colour of depth `depth` in `s` shows in the colours of that depth.
proof fn lemma_depth_occurs(s: Seq<Rgba>, index: int)
    requires
        0 <= index < s.len(),
    ensures
        colors_at_depth(s, depth_of(s[index])).len() > 0,
    decreases s.len(),
{
    reveal(Seq::filter);
    if index < s.len() - 1 {
        lemma_depth_occurs(s.drop_last(), index);
    }
}

/// The last colour of a sequence ordered by depth is the last of the colours
/// of its depth, and no colour is deeper.
proof fn lemma_last_of_ordering(s: Seq<Rgba>)
    requires
        s.len() > 0,
        ordered_by_depth(s),
    ensures
        colors_at_depth(s, depth_of(s.last())) == colors_at_depth(
            s.drop_last(),
            depth_of(s.last()),
        ).push(s.last()),
        forall|depth: u16|
            depth != depth_of(s.last()) ==> #[trigger] colors_at_depth(s, depth) == colors_at_depth(
                s.drop_last(),
                depth,
            ),
        forall|depth: u16|
            depth > depth_of(s.last()) ==> (#[trigger] colors_at_depth(s, depth)).len() == 0,
{
    reveal(Seq::filter);
    assert forall|depth: u16| depth > depth_of(s.last()) implies (#[trigger] colors_at_depth(
        s,
        depth,
    )).len() == 0 by {
        let found = colors_at_depth(s, depth);
        if found.len() > 0 {
            s.lemma_filter_contains_rev(has_depth(depth), found[0]);
            let at = choose|at: int| 0 <= at < s.len() && s[at] == found[0];
            s.lemma_filter_pred(has_depth(depth), 0);
            assert(depth_of(s[at]) <= depth_of(s[s.len() - 1]));
        }
    }
}

/// A sequence of colours has one depth ordering only.
pub proof fn lemma_depth_ordering_unique(first: Seq<Rgba>, second: Seq<Rgba>, inp: Seq<Rgba>)
    requires
        is_depth_ordering(first, inp),
        is_depth_ordering(second, inp),
    ensures
        first == second,
    decreases first.len(),
{
    if first.len() == 0 {
        assert(first =~= second);
    } else {
        let a = first.last();
        let b = second.last();
        lemma_last_of_ordering(first);
        lemma_last_of_ordering(second);
        lemma_depth_occurs(first, first.len() - 1);
        lemma_depth_occurs(second, second.len() - 1);
        assert(colors_at_depth(first, depth_of(a)) == colors_at_depth(inp, depth_of(a)));
        assert(colors_at_depth(second, depth_of(a)) == colors_at_depth(inp, depth_of(a)));
        assert(colors_at_depth(first, depth_of(b)) == colors_at_depth(inp, depth_of(b)));
        assert(colors_at_depth(second, depth_of(b)) == colors_at_depth(inp, depth_of(b)));
        assert(depth_of(a) == depth_of(b));
        let rest_a = colors_at_depth(first.drop_last(), depth_of(a));
        let rest_b = colors_at_depth(second.drop_last(), depth_of(a));
        assert(rest_a.push(a) == rest_b.push(b));
        assert(rest_a.push(a).last() == a);
        assert(rest_a.push(a).drop_last() == rest_a);
        assert(rest_b.push(b).drop_last() == rest_b);
        let shorter = first.drop_last();
        assert forall|depth: u16| #[trigger]
            colors_at_depth(shorter, depth) == colors_at_depth(second.drop_last(), depth) by {
            if depth != depth_of(a) {
                assert(colors_at_depth(first, depth) == colors_at_depth(inp, depth));
                assert(colors_at_depth(second, depth) == colors_at_depth(inp, depth));
            }
        }
        assert(ordered_by_depth(shorter)) by {
            assert forall|i: int, j: int| 0 <= i < j < shorter.len() implies depth_of(shorter[i])
                <= depth_of(shorter[j]) by {
                assert(shorter[i] == first[i] && shorter[j] == first[j]);
            }
        }
        assert(ordered_by_depth(second.drop_last())) by {
            let other = second.drop_last();
            assert forall|i: int, j: int| 0 <= i < j < other.len() implies depth_of(other[i])
                <= depth_of(other[j]) by {
                assert(other[i] == second[i] && other[j] == second[j]);
            }
        }
        lemma_depth_ordering_unique(shorter, second.drop_last(), shorter);
        assert(first =~= shorter.push(a));
        assert(second =~= second.drop_last().push(b));
    }
}

/// The views of the groups, in order.
pub open spec fn group_views(groups: Seq<Vec<Fragment>>) -> Seq<Seq<Fragment>> {
    Seq::new(groups.len(), |k: int| groups[k]@)
}

/// Every fragment of a group lies on the pixel of the group's first.
pub open spec fn on_one_pixel(group: Seq<Fragment>) -> bool {
    forall|i: int| 0 <= i < group.len() ==> is_at(group[0].x, group[0].y)(#[trigger] group[i])
}

/// Calls `Itertools::sorted_by_cached_key` with the pixel position `(x, y)` as
/// the key. The adaptor sorts ascending by key and is stable, so the result is
/// ordered by pixel and the fragments of each pixel keep their order.
#[verifier::external_body]
pub(crate) fn sort_by_pixel(fragments: Vec<Fragment>) -> (sorted: Vec<Fragment>)
    ensures
        sorted@.len() == fragments@.len(),
        ordered_by_pixel(sorted@),
        forall|x: u32, y: u32| #[trigger]
            fragments_at(sorted@, x, y) == fragments_at(fragments@, x, y),
{
    fragments.into_iter().sorted_by_cached_key(|f| (f.x, f.y)).collect()
}

/// Calls `Itertools::group_by` with the pixel position as the key. The adaptor
/// cuts its input into runs of consecutive elements with equal keys: the runs
/// are not empty, put end to end they are the input, and two neighbouring
/// runs differ in their key.
#[verifier::external_body]
pub(crate) fn group_by_pixel(fragments: Vec<Fragment>) -> (groups: Vec<Vec<Fragment>>)
    ensures
        group_views(groups@).flatten() == fragments@,
        forall|k: int| 0 <= k < groups@.len() ==> (#[trigger] groups@[k])@.len() > 0,
        forall|k: int| 0 <= k < groups@.len() ==> on_one_pixel((#[trigger] groups@[k])@),
        forall|k: int|
            0 <= k < groups@.len() - 1 ==> !is_at(groups@[k]@[0].x, groups@[k]@[0].y)(
                (#[trigger] groups@[k + 1])@[0],
            ),
{
    let runs = fragments.into_iter().group_by(|f| (f.x, f.y));
    let groups = runs.into_iter().map(|(_, run)| run.collect()).collect();
    groups
}

/// Calls `Itertools::sorted_by_key` with the decoded depth as the key. The
/// adaptor sorts ascending by key and is stable.
#[verifier::external_body]
pub(crate) fn sort_by_depth(colors: Vec<Rgba>) -> (sorted: Vec<Rgba>)
    ensures
        is_depth_ordering(sorted@, colors@),
{
    colors.into_iter().sorted_by_key(|c| get_depth(c)).collect()
}

} // verus!
