//! Merging depth-encoded render passes into ordered layers.
//!
//! Every pass is an image whose covered pixels carry their depth in the colour
//! channels. The fragments of all passes are grouped by pixel, each group is
//! ordered by depth, and the fragment of rank `r` of every pixel is written to
//! layer `r`.

use crate::pixel::{depth_of, lemma_pixel_index, pixel_index, PixelBuffer, Rgba};
use crate::sequences::{
    lemma_filter_flatten_none, lemma_filter_flatten_one, lemma_filter_push, lemma_filter_two,
    lemma_flatten_contains, lemma_flatten_last,
};
use crate::sorting::{
    colors_at_depth, fragments_at, has_depth, lemma_depth_ordering_unique, group_by_pixel, group_views, is_at, is_depth_ordering,
    on_one_pixel, ordered_by_pixel, pixel_before_or_at, sort_by_depth, sort_by_pixel, Fragment,
};
use vstd::prelude::*;

verus! {

/// The image that one render pass produced.
pub struct PartRenderOutput {
    pub image: PixelBuffer,
}

/// A pixel position: column `x` of row `y`.
#[derive(Clone, Copy, Debug, PartialEq, Eq, Structural, Hash)]
pub struct Point {
    pub x: u32,
    pub y: u32,
}

impl From<(u32, u32)> for Point {
    fn from(value: (u32, u32)) -> (point: Point) {
        Point { x: value.0, y: value.1 }
    }
}

impl vstd::std_specs::convert::FromSpecImpl<(u32, u32)> for Point {
    open spec fn obeys_from_spec() -> bool {
        true
    }

    open spec fn from_spec(value: (u32, u32)) -> Point {
        Point { x: value.0, y: value.1 }
    }
}

/// The fragments of one pixel over all passes, nearest first.
pub struct PixelStack {
    pub point: Point,
    pub pixels: Vec<Rgba>,
}

/// The pixel of an image at a row-major index, as a fragment.
pub open spec fn fragment_at_index(image: PixelBuffer, index: int) -> Fragment {
    Fragment {
        x: (index % image.spec_width() as int) as u32,
        y: (index / image.spec_width() as int) as u32,
        color: image@[index],
    }
}

/// Every pixel of an image as a fragment, row by row.
pub open spec fn all_pixels(image: PixelBuffer) -> Seq<Fragment> {
    Seq::new(image@.len(), |index: int| fragment_at_index(image, index))
}

pub open spec fn is_covered() -> spec_fn(Fragment) -> bool {
    |f: Fragment| f.color.a != 0
}

/// The covered pixels of an image, row by row.
pub open spec fn fragments_of(image: PixelBuffer) -> Seq<Fragment> {
    all_pixels(image).filter(is_covered())
}

/// The covered pixels of all passes, pass after pass.
pub open spec fn all_fragments(passes: Seq<PartRenderOutput>) -> Seq<Fragment>
    decreases passes.len(),
{
    if passes.len() == 0 {
        Seq::empty()
    } else {
        all_fragments(passes.drop_last()) + fragments_of(passes.last().image)
    }
}

/// The colours that the passes covering pixel `(x, y)` left there, in the
/// order of the passes.
pub open spec fn column(passes: Seq<PartRenderOutput>, x: int, y: int) -> Seq<Rgba>
    decreases passes.len(),
{
    if passes.len() == 0 {
        Seq::empty()
    } else if passes.last().image.covers(x, y) {
        column(passes.drop_last(), x, y).push(passes.last().image.pixel_at(x, y))
    } else {
        column(passes.drop_last(), x, y)
    }
}

pub open spec fn color_of() -> spec_fn(Fragment) -> Rgba {
    |f: Fragment| f.color
}

/// The colours of a sequence of fragments.
pub open spec fn colors_of(s: Seq<Fragment>) -> Seq<Rgba> {
    s.map_values(color_of())
}

/// The strict order of pixel positions: by column, then by row.
pub open spec fn point_before(a: Point, b: Point) -> bool {
    a.x < b.x || (a.x == b.x && a.y < b.y)
}

/// The stacks come in strictly ascending order of their pixels, so no pixel
/// has two stacks.
pub open spec fn stacks_ascending(stacks: Seq<PixelStack>) -> bool {
    forall|j: int, k: int|
        0 <= j < k < stacks.len() ==> point_before(stacks[j].point, stacks[k].point)
}

/// The stack holds the colours that the passes left on its pixel, ordered by
/// depth, nearest first; colours of equal depth keep the order of the passes.
pub open spec fn is_stack_of(stack: PixelStack, passes: Seq<PartRenderOutput>) -> bool {
    &&& stack.pixels@.len() > 0
    &&& is_depth_ordering(
        stack.pixels@,
        column(passes, stack.point.x as int, stack.point.y as int),
    )
}

/// The pixel of layer `rank` at `(x, y)` once the stacks are written to the
/// layers one after the other: the colour of that rank in the last stack of
/// the pixel that reaches the rank, transparent where there is none.
pub open spec fn layer_pixel(stacks: Seq<PixelStack>, rank: int, x: int, y: int) -> Rgba
    decreases stacks.len(),
{
    if stacks.len() == 0 {
        Rgba::transparent()
    } else if stacks.last().point.x == x && stacks.last().point.y == y && 0 <= rank
        < stacks.last().pixels@.len() {
        stacks.last().pixels@[rank]
    } else {
        layer_pixel(stacks.drop_last(), rank, x, y)
    }
}

/// The colours that the first `count` layers show at pixel `(x, y)`.
pub open spec fn stack_at(layers: Seq<PixelBuffer>, x: int, y: int, count: nat) -> Seq<Rgba> {
    Seq::new(count, |rank: int| layers[rank].pixel_at(x, y))
}

/// What the layers show at pixel `(x, y)`: the colours that the passes left
/// there, nearest first, one per layer, and nothing in the layers beyond.
pub open spec fn pixel_is_layered(
    layers: Seq<PixelBuffer>,
    passes: Seq<PartRenderOutput>,
    x: int,
    y: int,
) -> bool {
    let covering = column(passes, x, y);
    &&& covering.len() <= layers.len()
    &&& is_depth_ordering(stack_at(layers, x, y, covering.len()), covering)
    &&& forall|rank: int|
        covering.len() <= rank < layers.len() ==> (#[trigger] layers[rank]).pixel_at(x, y)
            == Rgba::transparent()
}

/// The covered pixels of an image, row by row.
pub fn covered_fragments(image: &PixelBuffer) -> (fragments: Vec<Fragment>)
    ensures
        fragments@ == fragments_of(*image),
        image.wf(),
{
    let width = image.width();
    let height = image.height();
    let mut fragments: Vec<Fragment> = Vec::new();
    let ghost pixels = all_pixels(*image);
    let mut y: u32 = 0;
    proof {
        reveal(Seq::filter);
        assert(pixels.take(0).len() == 0);
    }
    while y < height
        invariant
            image.wf(),
            width == image.spec_width(),
            height == image.spec_height(),
            pixels == all_pixels(*image),
            y <= height,
            0 <= pixel_index(width as int, 0, y as int) <= pixels.len(),
            fragments@ == pixels.take(pixel_index(width as int, 0, y as int)).filter(is_covered()),
        decreases height - y,
    {
        let mut x: u32 = 0;
        while x < width
            invariant
                image.wf(),
                width == image.spec_width(),
                height == image.spec_height(),
                pixels == all_pixels(*image),
                y < height,
                x <= width,
                0 <= pixel_index(width as int, x as int, y as int) <= pixels.len(),
                fragments@ == pixels.take(pixel_index(width as int, x as int, y as int)).filter(
                    is_covered(),
                ),
            decreases width - x,
        {
            let color = image.get_pixel(x, y);
            proof {
                let index = pixel_index(width as int, x as int, y as int);
                lemma_pixel_index(width as int, height as int, x as int, y as int);
                assert(pixels.take(index + 1) == pixels.take(index).push(pixels[index]));
                lemma_filter_push(pixels.take(index), is_covered(), pixels[index]);
                assert(pixels[index] == Fragment { x, y, color });
            }
            if color.a != 0 {
                fragments.push(Fragment { x, y, color });
            }
            x += 1;
        }
        proof {
            assert(pixel_index(width as int, width as int, y as int) == pixel_index(
                width as int,
                0,
                y + 1,
            )) by (nonlinear_arith);
        }
        y += 1;
    }
    proof {
        assert(pixel_index(width as int, 0, height as int) == pixels.len()) by (nonlinear_arith)
            requires
                pixels.len() == width * height,
        ;
        assert(pixels.take(pixels.len() as int) == pixels);
    }
    fragments
}

/// The covered pixels of all passes, pass after pass.
pub fn collect_fragments(passes: &Vec<PartRenderOutput>) -> (fragments: Vec<Fragment>)
    ensures
        fragments@ == all_fragments(passes@),
        forall|i: int| 0 <= i < passes.len() ==> (#[trigger] passes[i]).image.wf(),
{
    let mut fragments: Vec<Fragment> = Vec::new();
    let mut i: usize = 0;
    while i < passes.len()
        invariant
            i <= passes.len(),
            forall|k: int| 0 <= k < i ==> (#[trigger] passes[k]).image.wf(),
            fragments@ == all_fragments(passes@.take(i as int)),
        decreases passes.len() - i,
    {
        let mut covered = covered_fragments(&passes[i].image);
        fragments.append(&mut covered);
        proof {
            assert(passes@.take(i + 1).drop_last() == passes@.take(i as int));
        }
        i += 1;
    }
    proof {
        assert(passes@.take(passes.len() as int) == passes@);
    }
    fragments
}

/// Groups the covered pixels of all passes by pixel and orders each group by
/// depth, nearest first.
///
/// Every pixel that some pass covers gets exactly one stack. The stacks come
/// in ascending order of their pixels.
pub fn process_render_outputs(to_process: Vec<PartRenderOutput>) -> (stacks: Vec<PixelStack>)
    ensures
        stacks_ascending(stacks@),
        forall|k: int| 0 <= k < stacks.len() ==> is_stack_of(#[trigger] stacks[k], to_process@),
        forall|x: u32, y: u32|
            column(to_process@, x as int, y as int).len() > 0 ==> exists|k: int|
                0 <= k < stacks.len() && (#[trigger] stacks[k]).point == (Point { x, y }),
{
    let fragments = collect_fragments(&to_process);
    let sorted = sort_by_pixel(fragments);
    let ghost sorted_view = sorted@;
    let groups = group_by_pixel(sorted);
    let ghost runs = group_views(groups@);
    proof {
        assert forall|k: int| 0 <= k < runs.len() implies (#[trigger] runs[k]).len() > 0 by {
            assert(groups@[k]@.len() > 0);
        }
        assert forall|k: int| 0 <= k < runs.len() implies on_one_pixel(#[trigger] runs[k]) by {
            assert(on_one_pixel(groups@[k]@));
        }
        assert forall|k: int| 0 <= k < runs.len() - 1 implies !is_at(runs[k][0].x, runs[k][0].y)(
            (#[trigger] runs[k + 1])[0],
        ) by {
            assert(!is_at(groups@[k]@[0].x, groups@[k]@[0].y)(groups@[k + 1]@[0]));
        }
        assert(are_pixel_runs(runs, sorted_view));
    }
    let mut stacks: Vec<PixelStack> = Vec::new();
    let mut k: usize = 0;
    while k < groups.len()
        invariant
            k <= groups.len(),
            runs == group_views(groups@),
            are_pixel_runs(runs, sorted_view),
            stacks.len() == k,
            forall|m: int|
                0 <= m < k ==> (#[trigger] stacks[m]).point == (Point {
                    x: runs[m][0].x,
                    y: runs[m][0].y,
                }) && is_depth_ordering(stacks[m].pixels@, colors_of(runs[m])),
        decreases groups.len() - k,
    {
        let group = &groups[k];
        assert(group@ == runs[k as int]);
        assert(runs[k as int].len() > 0);
        let first = group[0];
        let mut colors: Vec<Rgba> = Vec::new();
        let mut i: usize = 0;
        while i < group.len()
            invariant
                i <= group.len(),
                colors.len() == i,
                forall|n: int| 0 <= n < i ==> colors[n] == (#[trigger] group[n]).color,
            decreases group.len() - i,
        {
            colors.push(group[i].color);
            i += 1;
        }
        assert(colors@ =~= colors_of(group@));
        let pixels = sort_by_depth(colors);
        stacks.push(PixelStack { point: Point { x: first.x, y: first.y }, pixels });
        k += 1;
    }
    proof {
        assert forall|j: int, k: int| 0 <= j < k < stacks.len() implies point_before(
            stacks[j].point,
            stacks[k].point,
        ) by {
            lemma_runs_ascend(runs, sorted_view, j, k);
        }
        assert forall|k: int| 0 <= k < stacks.len() implies is_stack_of(
            #[trigger] stacks[k],
            to_process@,
        ) by {
            let x = runs[k][0].x;
            let y = runs[k][0].y;
            lemma_run_is_filter(runs, sorted_view, k);
            assert(fragments_at(sorted_view, x, y) == fragments_at(all_fragments(to_process@), x, y));
            lemma_column_of_fragments(to_process@, x, y);
            assert(runs[k].len() > 0);
        }
        assert forall|x: u32, y: u32| column(to_process@, x as int, y as int).len() > 0 implies exists|
            k: int,
        |
            0 <= k < stacks.len() && (#[trigger] stacks[k]).point == (Point { x, y }) by {
            lemma_column_of_fragments(to_process@, x, y);
            assert(fragments_at(sorted_view, x, y) == fragments_at(all_fragments(to_process@), x, y));
            lemma_run_exists(runs, sorted_view, x, y);
            let k = choose|k: int| 0 <= k < runs.len() && is_at(x, y)(#[trigger] runs[k][0]);
            assert(stacks[k].point == (Point { x, y }));
        }
    }
    stacks
}

/// The number of layers that the stacks fill: the length of the longest.
pub fn layer_count(stacks: &Vec<PixelStack>) -> (count: usize)
    ensures
        forall|k: int| 0 <= k < stacks.len() ==> (#[trigger] stacks[k]).pixels@.len() <= count,
        stacks.len() == 0 ==> count == 0,
        stacks.len() > 0 ==> exists|k: int|
            0 <= k < stacks.len() && (#[trigger] stacks[k]).pixels@.len() == count,
{
    let mut count: usize = 0;
    let mut k: usize = 0;
    while k < stacks.len()
        invariant
            k <= stacks.len(),
            forall|m: int| 0 <= m < k ==> (#[trigger] stacks[m]).pixels@.len() <= count,
            k == 0 ==> count == 0,
            k > 0 ==> exists|m: int| 0 <= m < k && (#[trigger] stacks[m]).pixels@.len() == count,
        decreases stacks.len() - k,
    {
        if stacks[k].pixels.len() > count {
            count = stacks[k].pixels.len();
        }
        k += 1;
    }
    count
}

/// Writes the stacks to layers: the colour of rank `r` of every stack goes to
/// layer `r`, at the stack's pixel. There are as many layers as the longest
/// stack is long, and a layer is transparent wherever no stack reaches it.
pub fn build_layers(stacks: &Vec<PixelStack>, width: u32, height: u32) -> (layers: Vec<
    PixelBuffer,
>)
    requires
        width * height <= usize::MAX,
        forall|k: int|
            0 <= k < stacks.len() ==> (#[trigger] stacks[k]).point.x < width && stacks[k].point.y
                < height,
    ensures
        forall|k: int| 0 <= k < stacks.len() ==> (#[trigger] stacks[k]).pixels@.len() <= layers.len(),
        stacks.len() == 0 ==> layers.len() == 0,
        stacks.len() > 0 ==> exists|k: int|
            0 <= k < stacks.len() && (#[trigger] stacks[k]).pixels@.len() == layers.len(),
        forall|r: int|
            0 <= r < layers.len() ==> (#[trigger] layers[r]).wf() && layers[r].spec_width() == width
                && layers[r].spec_height() == height,
        forall|r: int, x: int, y: int|
            0 <= r < layers.len() && 0 <= x < width && 0 <= y < height ==> (
            #[trigger] layers[r].pixel_at(x, y)) == layer_pixel(stacks@, r, x, y),
{
    let count = layer_count(stacks);
    let mut layers: Vec<PixelBuffer> = Vec::new();
    let mut rank: usize = 0;
    while rank < count
        invariant
            rank <= count,
            width * height <= usize::MAX,
            forall|k: int|
                0 <= k < stacks.len() ==> (#[trigger] stacks[k]).point.x < width
                    && stacks[k].point.y < height,
            layers.len() == rank,
            forall|r: int|
                0 <= r < layers.len() ==> (#[trigger] layers[r]).wf() && layers[r].spec_width()
                    == width && layers[r].spec_height() == height,
            forall|r: int, x: int, y: int|
                0 <= r < layers.len() && 0 <= x < width && 0 <= y < height ==> (
                #[trigger] layers[r].pixel_at(x, y)) == layer_pixel(stacks@, r, x, y),
        decreases count - rank,
    {
        let mut layer = PixelBuffer::new(width, height);
        proof {
            assert forall|x: int, y: int| 0 <= x < width && 0 <= y < height implies (
            #[trigger] layer.pixel_at(x, y)) == Rgba::transparent() by {
                lemma_pixel_index(width as int, height as int, x, y);
            }
        }
        let mut k: usize = 0;
        while k < stacks.len()
            invariant
                k <= stacks.len(),
                forall|k: int|
                    0 <= k < stacks.len() ==> (#[trigger] stacks[k]).point.x < width
                        && stacks[k].point.y < height,
                layer.wf(),
                layer.spec_width() == width,
                layer.spec_height() == height,
                forall|x: int, y: int|
                    0 <= x < width && 0 <= y < height ==> (#[trigger] layer.pixel_at(x, y))
                        == layer_pixel(stacks@.take(k as int), rank as int, x, y),
            decreases stacks.len() - k,
        {
            let stack = &stacks[k];
            proof {
                assert(stacks@.take(k + 1).drop_last() == stacks@.take(k as int));
                assert(stacks@.take(k + 1).last() == stacks@[k as int]);
            }
            if rank < stack.pixels.len() {
                layer.put_pixel(stack.point.x, stack.point.y, stack.pixels[rank]);
            }
            k += 1;
        }
        proof {
            assert(stacks@.take(stacks.len() as int) == stacks@);
        }
        layers.push(layer);
        rank += 1;
    }
    layers
}

/// Merges the passes into layers of `width * height` pixels.
///
/// Layer 0 shows at every pixel the nearest fragment that any pass left
/// there, layer 1 the next, and so on; fragments of equal depth come in the
/// order of the passes. A layer is transparent wherever fewer passes cover the
/// pixel than its rank asks for. There are as many layers as the most covered
/// pixel has fragments.
pub fn compose_layers(to_process: Vec<PartRenderOutput>, width: u32, height: u32) -> (layers: Vec<
    PixelBuffer,
>)
    requires
        width * height <= usize::MAX,
        forall|i: int|
            0 <= i < to_process.len() ==> (#[trigger] to_process[i]).image.spec_width() <= width
                && to_process[i].image.spec_height() <= height,
    ensures
        forall|r: int|
            0 <= r < layers.len() ==> (#[trigger] layers[r]).wf() && layers[r].spec_width() == width
                && layers[r].spec_height() == height,
        forall|x: u32, y: u32|
            x < width && y < height ==> #[trigger] pixel_is_layered(
                layers@,
                to_process@,
                x as int,
                y as int,
            ),
        layers.len() > 0 ==> exists|x: u32, y: u32|
            x < width && y < height && (#[trigger] column(to_process@, x as int, y as int)).len()
                == layers.len(),
{
    let ghost passes = to_process@;
    let stacks = process_render_outputs(to_process);
    proof {
        assert forall|k: int| 0 <= k < stacks.len() implies (#[trigger] stacks[k]).point.x < width
            && stacks[k].point.y < height by {
            assert(is_stack_of(stacks[k], passes));
            lemma_column_in_bounds(
                passes,
                stacks[k].point.x as int,
                stacks[k].point.y as int,
                width as int,
                height as int,
            );
        }
    }
    let layers = build_layers(&stacks, width, height);
    proof {
        assert forall|x: u32, y: u32| x < width && y < height implies #[trigger] pixel_is_layered(
            layers@,
            passes,
            x as int,
            y as int,
        ) by {
            lemma_pixel_is_layered(layers@, stacks@, passes, x, y, width, height);
        }
        if layers.len() > 0 {
            let k = choose|k: int|
                0 <= k < stacks.len() && (#[trigger] stacks[k]).pixels@.len() == layers.len();
            assert(is_stack_of(stacks[k], passes));
            assert(column(passes, stacks[k].point.x as int, stacks[k].point.y as int).len()
                == layers.len());
        }
    }
    layers
}

/// Among the first `count` pixels of an image, the covered ones that lie on
/// `(x, y)`: the pixel itself where it was reached and is covered.
proof fn lemma_scan_at(image: PixelBuffer, count: int, x: u32, y: u32)
    requires
        image.wf(),
        0 <= count <= image@.len(),
    ensures
        fragments_at(all_pixels(image).take(count).filter(is_covered()), x, y) == if image.covers(
            x as int,
            y as int,
        ) && pixel_index(image.spec_width() as int, x as int, y as int) < count {
            seq![Fragment { x, y, color: image.pixel_at(x as int, y as int) }]
        } else {
            Seq::empty()
        },
    decreases count,
{
    reveal(Seq::filter);
    let w = image.spec_width() as int;
    let h = image.spec_height() as int;
    let pixels = all_pixels(image);
    if count == 0 {
        assert(pixels.take(0).len() == 0);
    } else {
        lemma_scan_at(image, count - 1, x, y);
        let last = pixels[count - 1];
        assert(pixels.take(count) == pixels.take(count - 1).push(last));
        lemma_filter_push(pixels.take(count - 1), is_covered(), last);
        if is_covered()(last) {
            lemma_filter_push(pixels.take(count - 1).filter(is_covered()), is_at(x, y), last);
        }
        assert(0 < w && 0 < h) by (nonlinear_arith)
            requires
                0 < count <= w * h,
                0 <= w,
                0 <= h,
        ;
        vstd::arithmetic::div_mod::lemma_fundamental_div_mod(count - 1, w);
        vstd::arithmetic::div_mod::lemma_div_pos_is_pos(count - 1, w);
        vstd::arithmetic::div_mod::lemma_mod_bound(count - 1, w);
        if image.in_bounds(x as int, y as int) {
            lemma_pixel_index(w, h, x as int, y as int);
        }
        let row = (count - 1) / w;
        let col = (count - 1) % w;
        assert(row < h) by (nonlinear_arith)
            requires
                count - 1 == w * row + col,
                0 <= col,
                count - 1 < w * h,
                0 < w,
        ;
        assert(is_at(x, y)(last) <==> (image.in_bounds(x as int, y as int) && pixel_index(
            w,
            x as int,
            y as int,
        ) == count - 1)) by {
            if is_at(x, y)(last) {
                assert(col == x && row == y);
                assert(w * row == row * w) by (nonlinear_arith);
            }
        }
    }
}

/// The covered pixels of an image that lie on `(x, y)`.
pub proof fn lemma_fragments_of_at(image: PixelBuffer, x: u32, y: u32)
    requires
        image.wf(),
    ensures
        fragments_at(fragments_of(image), x, y) == if image.covers(x as int, y as int) {
            seq![Fragment { x, y, color: image.pixel_at(x as int, y as int) }]
        } else {
            Seq::empty()
        },
{
    let pixels = all_pixels(image);
    assert(pixels.take(pixels.len() as int) == pixels);
    lemma_scan_at(image, image@.len() as int, x, y);
    if image.in_bounds(x as int, y as int) {
        lemma_pixel_index(
            image.spec_width() as int,
            image.spec_height() as int,
            x as int,
            y as int,
        );
    }
}

/// Filtering the covered pixels of all passes by a pixel gives, colour for
/// colour, the column of that pixel.
pub proof fn lemma_column_of_fragments(passes: Seq<PartRenderOutput>, x: u32, y: u32)
    requires
        forall|i: int| 0 <= i < passes.len() ==> (#[trigger] passes[i]).image.wf(),
    ensures
        colors_of(fragments_at(all_fragments(passes), x, y)) == column(passes, x as int, y as int),
    decreases passes.len(),
{
    reveal(Seq::filter);
    if passes.len() == 0 {
        assert(colors_of(fragments_at(all_fragments(passes), x, y)) =~= Seq::<Rgba>::empty());
    } else {
        let before = passes.drop_last();
        let image = passes.last().image;
        lemma_column_of_fragments(before, x, y);
        lemma_fragments_of_at(image, x, y);
        Seq::filter_distributes_over_add(all_fragments(before), fragments_of(image), is_at(x, y));
        assert(colors_of(
            fragments_at(all_fragments(before), x, y) + fragments_at(fragments_of(image), x, y),
        ) =~= colors_of(fragments_at(all_fragments(before), x, y)) + colors_of(
            fragments_at(fragments_of(image), x, y),
        ));
        if image.covers(x as int, y as int) {
            assert(colors_of(fragments_at(fragments_of(image), x, y)) =~= seq![
                image.pixel_at(x as int, y as int),
            ]);
            assert(column(before, x as int, y as int) + seq![image.pixel_at(x as int, y as int)]
                =~= column(before, x as int, y as int).push(image.pixel_at(x as int, y as int)));
        } else {
            assert(colors_of(fragments_at(fragments_of(image), x, y)) =~= Seq::<Rgba>::empty());
            assert(column(before, x as int, y as int) + Seq::<Rgba>::empty() =~= column(
                before,
                x as int,
                y as int,
            ));
        }
    }
}

/// A pixel with a column that is not empty lies inside one of the passes.
pub proof fn lemma_column_in_bounds(
    passes: Seq<PartRenderOutput>,
    x: int,
    y: int,
    width: int,
    height: int,
)
    requires
        forall|i: int|
            0 <= i < passes.len() ==> (#[trigger] passes[i]).image.spec_width() <= width
                && passes[i].image.spec_height() <= height,
        column(passes, x, y).len() > 0,
    ensures
        0 <= x < width,
        0 <= y < height,
    decreases passes.len(),
{
    if passes.len() > 0 && !passes.last().image.covers(x, y) {
        lemma_column_in_bounds(passes.drop_last(), x, y, width, height);
    }
}

/// Where the groups put end to end are ordered by pixel, a fragment of an
/// earlier group does not come after one of a later group.
proof fn lemma_groups_ordered(groups: Seq<Seq<Fragment>>, j: int, k: int, a: int, b: int)
    requires
        ordered_by_pixel(groups.flatten()),
        0 <= j < k < groups.len(),
        0 <= a < groups[j].len(),
        0 <= b < groups[k].len(),
    ensures
        pixel_before_or_at(groups[j][a], groups[k][b]),
    decreases groups.len(),
{
    lemma_flatten_last(groups);
    let flat = groups.flatten();
    let before = groups.drop_last().flatten();
    if k == groups.len() - 1 {
        lemma_flatten_contains(groups.drop_last(), j, a);
        let at = choose|at: int| 0 <= at < before.len() && before[at] == groups[j][a];
        assert(flat[at] == groups[j][a]);
        assert(flat[before.len() + b] == groups[k][b]);
    } else {
        assert forall|m: int, n: int| 0 <= m < n < before.len() implies pixel_before_or_at(
            before[m],
            before[n],
        ) by {
            assert(flat[m] == before[m]);
            assert(flat[n] == before[n]);
        }
        lemma_groups_ordered(groups.drop_last(), j, k, a, b);
    }
}

/// The runs of a sequence that is ordered by pixel.
pub open spec fn are_pixel_runs(groups: Seq<Seq<Fragment>>, sorted: Seq<Fragment>) -> bool {
    &&& groups.flatten() == sorted
    &&& ordered_by_pixel(sorted)
    &&& forall|k: int| 0 <= k < groups.len() ==> (#[trigger] groups[k]).len() > 0
    &&& forall|k: int| 0 <= k < groups.len() ==> on_one_pixel(#[trigger] groups[k])
    &&& forall|k: int|
        0 <= k < groups.len() - 1 ==> !is_at(groups[k][0].x, groups[k][0].y)(
            (#[trigger] groups[k + 1])[0],
        )
}

/// The runs of a sequence ordered by pixel lie on strictly ascending pixels.
proof fn lemma_runs_ascend(groups: Seq<Seq<Fragment>>, sorted: Seq<Fragment>, j: int, k: int)
    requires
        are_pixel_runs(groups, sorted),
        0 <= j < k < groups.len(),
    ensures
        point_before(
            Point { x: groups[j][0].x, y: groups[j][0].y },
            Point { x: groups[k][0].x, y: groups[k][0].y },
        ),
{
    lemma_groups_ordered(groups, j, j + 1, 0, 0);
    assert(groups[j + 1].len() > 0);
    if j + 1 < k {
        lemma_groups_ordered(groups, j + 1, k, 0, 0);
    }
}

/// Each run of a sequence ordered by pixel holds all fragments of its pixel.
proof fn lemma_run_is_filter(groups: Seq<Seq<Fragment>>, sorted: Seq<Fragment>, k: int)
    requires
        are_pixel_runs(groups, sorted),
        0 <= k < groups.len(),
    ensures
        fragments_at(sorted, groups[k][0].x, groups[k][0].y) == groups[k],
{
    let x = groups[k][0].x;
    let y = groups[k][0].y;
    assert forall|j: int, i: int|
        0 <= j < groups.len() && j != k && 0 <= i < groups[j].len() implies !is_at(x, y)(
        #[trigger] groups[j][i],
    ) by {
        assert(on_one_pixel(groups[j]));
        assert(is_at(groups[j][0].x, groups[j][0].y)(groups[j][i]));
        if j < k {
            lemma_runs_ascend(groups, sorted, j, k);
        } else {
            lemma_runs_ascend(groups, sorted, k, j);
        }
    }
    assert(on_one_pixel(groups[k]));
    lemma_filter_flatten_one(groups, is_at(x, y), k);
}

/// A pixel that has a fragment in a sequence ordered by pixel has a run.
proof fn lemma_run_exists(groups: Seq<Seq<Fragment>>, sorted: Seq<Fragment>, x: u32, y: u32)
    requires
        are_pixel_runs(groups, sorted),
        fragments_at(sorted, x, y).len() > 0,
    ensures
        exists|k: int| 0 <= k < groups.len() && is_at(x, y)(#[trigger] groups[k][0]),
{
    if !exists|k: int| 0 <= k < groups.len() && is_at(x, y)(#[trigger] groups[k][0]) {
        assert forall|k: int, i: int|
            0 <= k < groups.len() && 0 <= i < groups[k].len() implies !is_at(x, y)(
            #[trigger] groups[k][i],
        ) by {
            assert(on_one_pixel(groups[k]));
            assert(is_at(groups[k][0].x, groups[k][0].y)(groups[k][i]));
            assert(!is_at(x, y)(groups[k][0]));
        }
        lemma_filter_flatten_none(groups, is_at(x, y));
    }
}

/// Where no pixel has two stacks, a layer shows at the pixel of a stack the
/// colour that the stack holds for the layer's rank.
pub proof fn lemma_layer_pixel_of_stack(stacks: Seq<PixelStack>, k: int, rank: int)
    requires
        stacks_ascending(stacks),
        0 <= k < stacks.len(),
        0 <= rank < stacks[k].pixels@.len(),
    ensures
        layer_pixel(stacks, rank, stacks[k].point.x as int, stacks[k].point.y as int)
            == stacks[k].pixels@[rank],
    decreases stacks.len(),
{
    if k < stacks.len() - 1 {
        let rest = stacks.drop_last();
        assert(point_before(stacks[k].point, stacks[stacks.len() - 1].point));
        assert forall|i: int, j: int| 0 <= i < j < rest.len() implies point_before(
            rest[i].point,
            rest[j].point,
        ) by {
            assert(point_before(stacks[i].point, stacks[j].point));
        }
        assert(rest[k] == stacks[k]);
        lemma_layer_pixel_of_stack(rest, k, rank);
    }
}

/// A layer is transparent where no stack reaches its rank.
pub proof fn lemma_layer_pixel_transparent(stacks: Seq<PixelStack>, rank: int, x: int, y: int)
    requires
        forall|k: int|
            0 <= k < stacks.len() && (#[trigger] stacks[k]).point.x == x && stacks[k].point.y == y
                ==> !(0 <= rank < stacks[k].pixels@.len()),
    ensures
        layer_pixel(stacks, rank, x, y) == Rgba::transparent(),
    decreases stacks.len(),
{
    if stacks.len() > 0 {
        assert(stacks.last() == stacks[stacks.len() - 1]);
        assert forall|k: int|
            0 <= k < stacks.drop_last().len() && (#[trigger] stacks.drop_last()[k]).point.x == x
                && stacks.drop_last()[k].point.y == y implies !(0 <= rank
            < stacks.drop_last()[k].pixels@.len()) by {
            assert(stacks.drop_last()[k] == stacks[k]);
        }
        lemma_layer_pixel_transparent(stacks.drop_last(), rank, x, y);
    }
}

proof fn lemma_pixel_is_layered(
    layers: Seq<PixelBuffer>,
    stacks: Seq<PixelStack>,
    passes: Seq<PartRenderOutput>,
    x: u32,
    y: u32,
    width: u32,
    height: u32,
)
    requires
        x < width,
        y < height,
        stacks_ascending(stacks),
        forall|k: int| 0 <= k < stacks.len() ==> is_stack_of(#[trigger] stacks[k], passes),
        column(passes, x as int, y as int).len() > 0 ==> exists|k: int|
            0 <= k < stacks.len() && (#[trigger] stacks[k]).point == (Point { x, y }),
        forall|k: int| 0 <= k < stacks.len() ==> (#[trigger] stacks[k]).pixels@.len() <= layers.len(),
        forall|r: int, u: int, v: int|
            0 <= r < layers.len() && 0 <= u < width && 0 <= v < height ==> (
            #[trigger] layers[r].pixel_at(u, v)) == layer_pixel(stacks, r, u, v),
    ensures
        pixel_is_layered(layers, passes, x as int, y as int),
{
    reveal(Seq::filter);
    let covering = column(passes, x as int, y as int);
    if covering.len() > 0 {
        let k = choose|k: int|
            0 <= k < stacks.len() && (#[trigger] stacks[k]).point == (Point { x, y });
        assert(is_stack_of(stacks[k], passes));
        let shown = stack_at(layers, x as int, y as int, covering.len());
        assert forall|rank: int| 0 <= rank < covering.len() implies shown[rank]
            == stacks[k].pixels@[rank] by {
            lemma_layer_pixel_of_stack(stacks, k, rank);
            assert(layers[rank].pixel_at(x as int, y as int) == layer_pixel(
                stacks,
                rank,
                x as int,
                y as int,
            ));
        }
        assert(shown =~= stacks[k].pixels@);
        assert forall|rank: int| covering.len() <= rank < layers.len() implies (
        #[trigger] layers[rank]).pixel_at(x as int, y as int) == Rgba::transparent() by {
            assert forall|m: int|
                0 <= m < stacks.len() && (#[trigger] stacks[m]).point.x == x && stacks[m].point.y
                    == y implies !(0 <= rank < stacks[m].pixels@.len()) by {
                assert(is_stack_of(stacks[m], passes));
            }
            lemma_layer_pixel_transparent(stacks, rank, x as int, y as int);
            assert(layers[rank].pixel_at(x as int, y as int) == layer_pixel(
                stacks,
                rank,
                x as int,
                y as int,
            ));
        }
    } else {
        assert(stack_at(layers, x as int, y as int, 0) =~= covering);
        assert forall|rank: int| 0 <= rank < layers.len() implies (#[trigger] layers[rank]).pixel_at(
            x as int,
            y as int,
        ) == Rgba::transparent() by {
            assert forall|m: int|
                0 <= m < stacks.len() && (#[trigger] stacks[m]).point.x == x && stacks[m].point.y
                    == y implies !(0 <= rank < stacks[m].pixels@.len()) by {
                assert(is_stack_of(stacks[m], passes));
            }
            lemma_layer_pixel_transparent(stacks, rank, x as int, y as int);
            assert(layers[rank].pixel_at(x as int, y as int) == layer_pixel(
                stacks,
                rank,
                x as int,
                y as int,
            ));
        }
    }
}

/// Where two passes cover a pixel, the first layer shows the nearer of their
/// two fragments and the second layer the farther, whichever pass came
/// first; of two fragments at one depth the one of the earlier pass comes
/// first. Every further layer is transparent there.
pub proof fn lemma_two_fragments(
    layers: Seq<PixelBuffer>,
    passes: Seq<PartRenderOutput>,
    x: int,
    y: int,
    earlier: Rgba,
    later: Rgba,
)
    requires
        pixel_is_layered(layers, passes, x, y),
        column(passes, x, y) == seq![earlier, later],
    ensures
        layers.len() >= 2,
        depth_of(earlier) <= depth_of(later) ==> layers[0].pixel_at(x, y) == earlier
            && layers[1].pixel_at(x, y) == later,
        depth_of(later) < depth_of(earlier) ==> layers[0].pixel_at(x, y) == later
            && layers[1].pixel_at(x, y) == earlier,
        forall|rank: int|
            2 <= rank < layers.len() ==> (#[trigger] layers[rank]).pixel_at(x, y)
                == Rgba::transparent(),
{
    let covering = seq![earlier, later];
    let ordered = if depth_of(earlier) <= depth_of(later) {
        seq![earlier, later]
    } else {
        seq![later, earlier]
    };
    assert forall|depth: u16| #[trigger]
        colors_at_depth(ordered, depth) == colors_at_depth(covering, depth) by {
        lemma_filter_two(earlier, later, has_depth(depth));
        lemma_filter_two(later, earlier, has_depth(depth));
    }
    assert(is_depth_ordering(ordered, covering));
    let shown = stack_at(layers, x, y, 2);
    lemma_depth_ordering_unique(shown, ordered, covering);
    assert(shown[0] == layers[0].pixel_at(x, y));
    assert(shown[1] == layers[1].pixel_at(x, y));
}

} // verus!
