use vstd::prelude::*;
use visioncortex::color_clusters::Clusters as ColorClusters;
use visioncortex::CompoundPath;
use crate::config::PathMode;
use crate::document::{FillColor, PathEntry, VectorDocument};
use visioncortex::clusters::Clusters;
use crate::engine::{
    add_spline, black, circle_spline, component_count, component_size, component_sizes, emitted, emission_order,
    circle_of, circular, is_circle_region, new_path, rect_of, region_rect, residue, residue_color, with_spline,
    MAX_COMPONENTS,
};

verus! {

/// Region `id` of `c` is drawn as one circle: in spline mode, when its box is
/// small enough to classify, the engine finds it circular, and the circle's
/// box fits in `i32` with a diameter of at least 2.
pub open spec fn drawn_as_circle(c: ColorClusters, mode: PathMode, id: usize) -> bool {
    let r = rect_of(c, id);
    mode == PathMode::Spline && 0 <= r.width && 0 <= r.height && r.width * r.height < MAX_COMPONENTS
        && circular(c, id) && r.width >= 2 && r.left >= 0 && r.top >= 0 && r.left + r.width <= i32::MAX
        && r.top + r.width <= i32::MAX
}

/// The path of `e` is the circle of its region's box (its width as diameter),
/// appended to a fresh path, or else what `trace` gave for the region.
pub open spec fn region_painted<F: Fn(&ColorClusters, usize) -> CompoundPath>(
    c: ColorClusters,
    mode: PathMode,
    trace: F,
    e: PathEntry,
) -> bool {
    if drawn_as_circle(c, mode, e.region) {
        let r = rect_of(c, e.region);
        exists|p: CompoundPath| e.path == with_spline(p, circle_of(r.left, r.top, r.width))
    } else {
        call_ensures(trace, (&c, e.region), e.path)
    }
}

/// The residue colors of the regions `ids` of `c`, in the same order.
pub open spec fn residues(c: ColorClusters, ids: Seq<usize>) -> Seq<FillColor> {
    ids.map_values(|id: usize| residue(c, id))
}

/// Paints the emitted regions of `clusters` onto `doc`, last-emitted first, so
/// that the first-emitted region ends on top. In spline mode a region whose mask
/// is circular becomes one circle, placed at its bounding box's left-top corner
/// with the box's width as diameter (a box under two pixels wide, or one whose
/// far corner would not fit in `i32`, is traced instead); every other region
/// is traced by `trace`. Each region is filled with its residue color.
pub fn paint_clusters<F: Fn(&ColorClusters, usize) -> CompoundPath>(
    clusters: &ColorClusters,
    mode: PathMode,
    trace: F,
    doc: &mut VectorDocument,
)
    requires
        forall|id: usize| emitted(*clusters).contains(id) ==> trace.requires((clusters, id)),
    ensures
        final(doc).regions() == old(doc).regions() + emitted(*clusters).reverse(),
        final(doc).fills() == old(doc).fills() + residues(*clusters, emitted(*clusters).reverse()),
        final(doc).width == old(doc).width,
        final(doc).height == old(doc).height,
        final(doc).precision == old(doc).precision,
        final(doc).entries@.subrange(0, old(doc).entries@.len() as int) == old(doc).entries@,
        forall|j: int| old(doc).entries@.len() <= j < final(doc).entries@.len()
            ==> region_painted(*clusters, mode, trace, #[trigger] final(doc).entries@[j]),
{
    let order: Vec<usize> = emission_order(clusters);
    let mut k: usize = order.len();
    while k > 0
        invariant
            order@ == emitted(*clusters),
            k <= order@.len(),
            forall|id: usize| emitted(*clusters).contains(id) ==> trace.requires((clusters, id)),
            doc.regions() == old(doc).regions() + order@.subrange(k as int, order@.len() as int).reverse(),
            doc.fills() == old(doc).fills() + residues(*clusters, order@.subrange(k as int, order@.len() as int).reverse()),
            doc.width == old(doc).width,
            doc.height == old(doc).height,
            doc.precision == old(doc).precision,
            old(doc).entries@.len() <= doc.entries@.len(),
            doc.entries@.subrange(0, old(doc).entries@.len() as int) == old(doc).entries@,
            forall|j: int| old(doc).entries@.len() <= j < doc.entries@.len()
                ==> region_painted(*clusters, mode, trace, #[trigger] doc.entries@[j]),
        decreases k,
    {
        k = k - 1;
        let id: usize = order[k];
        assert(emitted(*clusters).contains(id)) by { assert(order@[k as int] == id); }
        let rect = region_rect(clusters, id);
        let classifiable: bool = if rect.width >= 0 && rect.height >= 0 {
            let wd: i64 = rect.width as i64;
            let ht: i64 = rect.height as i64;
            assert(wd * ht <= 0x7fff_ffffi64 * 0x7fff_ffffi64) by (nonlinear_arith)
                requires 0 <= wd <= 0x7fff_ffffi64, 0 <= ht <= 0x7fff_ffffi64;
            wd * ht < MAX_COMPONENTS as i64
        } else {
            false
        };
        let fits: bool = rect.width >= 2 && rect.left >= 0 && rect.top >= 0 && rect.left <= i32::MAX - rect.width
            && rect.top <= i32::MAX - rect.width;
        let circle: bool = match mode {
            PathMode::Spline => classifiable && is_circle_region(clusters, id) && fits,
            _ => false,
        };
        let path: CompoundPath = if circle {
            let mut p: CompoundPath = new_path();
            let ghost empty = p;
            add_spline(&mut p, circle_spline(rect.left, rect.top, rect.width));
            assert(p == with_spline(empty, circle_of(rect.left, rect.top, rect.width)));
            p
        } else {
            trace(clusters, id)
        };
        let color = residue_color(clusters, id);
        let ghost prev = doc.entries@;
        doc.add_path(path, color, id);
        assert(doc.entries@ =~= prev.push(PathEntry { path, color, region: id }));
        assert(doc.entries@.subrange(0, old(doc).entries@.len() as int) =~= prev.subrange(0, old(doc).entries@.len() as int));
        assert(order@.subrange(k as int, order@.len() as int).reverse() =~= order@.subrange(k + 1, order@.len() as int).reverse().push(id));
        assert(residues(*clusters, order@.subrange(k as int, order@.len() as int).reverse()) =~= residues(*clusters, order@.subrange(k + 1, order@.len() as int).reverse()).push(residue(*clusters, id)));
    }
    assert(order@.subrange(0, order@.len() as int) =~= order@);
}

/// The indices among the first `n` of `sizes` whose size reaches `floor`, in order.
pub open spec fn kept(sizes: Seq<usize>, floor: usize, n: int) -> Seq<usize>
    decreases n,
{
    if n <= 0 {
        Seq::empty()
    } else if sizes[n - 1] >= floor {
        kept(sizes, floor, n - 1).push((n - 1) as usize)
    } else {
        kept(sizes, floor, n - 1)
    }
}

/// The components that survive the speckle filter: those of at least `floor` pixels.
pub open spec fn surviving(sizes: Seq<usize>, floor: usize) -> Seq<usize> {
    kept(sizes, floor, sizes.len() as int)
}

/// Paints, in order and in opaque black, every component of `components` of at
/// least `floor` pixels, each traced by `trace`; smaller ones are dropped.
pub fn paint_components<F: Fn(&Clusters, usize) -> CompoundPath>(
    components: &Clusters,
    floor: usize,
    trace: F,
    doc: &mut VectorDocument,
)
    requires
        forall|i: usize| i < component_sizes(*components).len() ==> trace.requires((components, i)),
    ensures
        final(doc).regions() == old(doc).regions() + surviving(component_sizes(*components), floor),
        final(doc).fills() == old(doc).fills() + Seq::new(
            surviving(component_sizes(*components), floor).len(),
            |j: int| FillColor { r: 0, g: 0, b: 0, a: 255 },
        ),
        final(doc).width == old(doc).width,
        final(doc).height == old(doc).height,
        final(doc).precision == old(doc).precision,
        old(doc).entries@.len() <= final(doc).entries@.len(),
        final(doc).entries@.subrange(0, old(doc).entries@.len() as int) == old(doc).entries@,
        forall|j: int| old(doc).entries@.len() <= j < final(doc).entries@.len()
            ==> call_ensures(trace, (components, #[trigger] final(doc).entries@[j].region), final(doc).entries@[j].path),
{
    let ghost sizes = component_sizes(*components);
    let n: usize = component_count(components);
    let mut i: usize = 0;
    let ghost painted: nat = 0;
    while i < n
        invariant
            n == sizes.len(),
            sizes == component_sizes(*components),
            i <= n,
            forall|i: usize| i < component_sizes(*components).len() ==> trace.requires((components, i)),
            doc.regions() == old(doc).regions() + kept(sizes, floor, i as int),
            doc.fills() == old(doc).fills() + Seq::new(
                kept(sizes, floor, i as int).len(),
                |j: int| FillColor { r: 0, g: 0, b: 0, a: 255 },
            ),
            doc.width == old(doc).width,
            doc.height == old(doc).height,
            doc.precision == old(doc).precision,
            old(doc).entries@.len() <= doc.entries@.len(),
            doc.entries@.subrange(0, old(doc).entries@.len() as int) == old(doc).entries@,
            forall|j: int| old(doc).entries@.len() <= j < doc.entries@.len()
                ==> call_ensures(trace, (components, #[trigger] doc.entries@[j].region), doc.entries@[j].path),
        decreases n - i,
    {
        let size: usize = component_size(components, i);
        if size >= floor {
            let path: CompoundPath = trace(components, i);
            let color: FillColor = black();
            let ghost prev = doc.entries@;
            doc.add_path(path, color, i);
            assert(doc.entries@ =~= prev.push(PathEntry { path, color, region: i }));
        }
        assert(doc.fills() =~= old(doc).fills() + Seq::new(
            kept(sizes, floor, i + 1).len(),
            |j: int| FillColor { r: 0, g: 0, b: 0, a: 255 },
        ));
        i = i + 1;
    }
}

/// No path painted from `sizes` with speckle floor `floor` comes from a
/// component of fewer than `floor` pixels, and every larger component is painted.
pub proof fn lemma_speckle_filter(sizes: Seq<usize>, floor: usize)
    requires
        sizes.len() <= usize::MAX,
    ensures
        forall|j: int| 0 <= j < surviving(sizes, floor).len() ==> {
            let i = #[trigger] surviving(sizes, floor)[j];
            i < sizes.len() && sizes[i as int] >= floor
        },
        forall|i: int| 0 <= i < sizes.len() && sizes[i] >= floor ==> surviving(sizes, floor).contains(i as usize),
{
    lemma_kept(sizes, floor, sizes.len() as int);
}

proof fn lemma_kept(sizes: Seq<usize>, floor: usize, n: int)
    requires
        0 <= n <= sizes.len(),
        sizes.len() <= usize::MAX,
    ensures
        forall|j: int| 0 <= j < kept(sizes, floor, n).len() ==> {
            let i = #[trigger] kept(sizes, floor, n)[j];
            i < n && sizes[i as int] >= floor
        },
        forall|i: int| 0 <= i < n && sizes[i] >= floor ==> kept(sizes, floor, n).contains(i as usize),
    decreases n,
{
    if n > 0 {
        lemma_kept(sizes, floor, n - 1);
        let prev = kept(sizes, floor, n - 1);
        assert forall|j: int| 0 <= j < kept(sizes, floor, n).len() implies {
            let i = #[trigger] kept(sizes, floor, n)[j];
            i < n && sizes[i as int] >= floor
        } by {
            if j < prev.len() {
                assert(kept(sizes, floor, n)[j] == prev[j]);
            } else {
                assert(kept(sizes, floor, n)[j] == (n - 1) as usize);
            }
        }
        if sizes[n - 1] >= floor {
            assert forall|i: int| 0 <= i < n && sizes[i] >= floor implies kept(sizes, floor, n).contains(i as usize) by {
                if i < n - 1 {
                    let j = choose|j: int| 0 <= j < prev.len() && prev[j] == i as usize;
                    assert(kept(sizes, floor, n)[j] == i as usize);
                } else {
                    assert(kept(sizes, floor, n)[prev.len() as int] == i as usize);
                }
            }
        }
    }
}

} // verus!
