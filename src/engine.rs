//! The outside clustering engine, its path primitives, and the random source,
//! as this library relies on them.

use vstd::prelude::*;
use visioncortex::clusters::Clusters;
use visioncortex::color_clusters::{ClusterIndex, Clusters as ColorClusters, KeyingAction, Runner, RunnerConfig, HIERARCHICAL_MAX};
use visioncortex::{
    approximate_circle_with_spline, BinaryImage, Color, ColorImage, ColorName, CompoundPath,
    PointI32, Spline,
};
use crate::config::KeyAction;
use crate::document::FillColor;
use crate::keying::{is_foreground, same_label};
use crate::passes::PassParams;
use crate::raster::RasterImage;

verus! {

#[verifier::external_type_specification]
#[verifier::external_body]
pub struct ExColorImage(ColorImage);

#[verifier::external_type_specification]
#[verifier::external_body]
pub struct ExBinaryImage(BinaryImage);

#[verifier::external_type_specification]
#[verifier::external_body]
pub struct ExCompoundPath(CompoundPath);

#[verifier::external_type_specification]
#[verifier::external_body]
pub struct ExSpline(Spline);

#[verifier::external_type_specification]
#[verifier::external_body]
pub struct ExColorClusters(ColorClusters);

#[verifier::external_type_specification]
#[verifier::external_body]
pub struct ExClusters(Clusters);

#[verifier::external_type_specification]
#[verifier::external_body]
pub struct ExRng(fastrand::Rng);

/// What a color clustering pass of the engine returns for an image and parameters.
pub uninterp spec fn clustering_of(pixels: Seq<u8>, width: usize, height: usize, p: PassParams) -> ColorClusters;

/// The flattened composite of a color clustering: each region painted in its residue color.
pub uninterp spec fn composite(c: ColorClusters) -> RasterImage;

/// The indices of the regions a color clustering emits, in emission order.
pub uninterp spec fn emitted(c: ColorClusters) -> Seq<usize>;

/// The residue (fill) color of region `id` of a color clustering.
pub uninterp spec fn residue(c: ColorClusters, id: usize) -> FillColor;

/// The bounding rectangle of region `id` of a color clustering.
pub uninterp spec fn rect_of(c: ColorClusters, id: usize) -> RegionRect;

/// Whether the engine classifies region `id` of a color clustering as a circle.
pub uninterp spec fn circular(c: ColorClusters, id: usize) -> bool;

/// The circle the engine approximates in a square at (`left`, `top`) of side `diameter`.
pub uninterp spec fn circle_of(left: i32, top: i32, diameter: i32) -> Spline;

/// A path with `s` appended as its last sub-path.
pub uninterp spec fn with_spline(p: CompoundPath, s: Spline) -> CompoundPath;

/// The pixels of a binary image, row-major.
pub uninterp spec fn mask_of(b: BinaryImage) -> Seq<bool>;

/// The width of a binary image.
pub uninterp spec fn mask_width(b: BinaryImage) -> usize;

/// The 4-connected components the engine finds in a row-major mask of the given width.
pub uninterp spec fn components_of(mask: Seq<bool>, width: usize) -> Clusters;

/// The pixel counts of the connected components of a binary clustering, in order.
pub uninterp spec fn component_sizes(c: Clusters) -> Seq<usize>;

/// Whether entry `i` of a row-major mask of width `w` starts a new 4-connected
/// component in the engine's scan: it is set, and neither its upper nor its
/// left neighbour is.
pub open spec fn is_start(mask: Seq<bool>, w: int, i: int) -> bool {
    mask[i] && (i < w || !mask[i - w]) && (i % w == 0 || !mask[i - 1])
}

/// Number of starting entries among the first `n` of a mask of width `w`.
pub open spec fn count_starts(mask: Seq<bool>, w: int, n: int) -> nat
    decreases n,
{
    if n <= 0 {
        0
    } else {
        count_starts(mask, w, n - 1) + (if is_start(mask, w, n - 1) { 1nat } else { 0nat })
    }
}

/// The components the engine can number: it panics once it has started 65535.
pub const MAX_COMPONENTS: usize = 65535;

/// The foreground mask of binary mode: red channel below 128.
pub open spec fn red_mask(img: &RasterImage) -> Seq<bool> {
    Seq::new(img.num_pixels(), |i: int| img.channel(i, 0) < 128)
}

/// The mask of the pixels whose red channel equals `label`.
pub open spec fn label_mask(img: &RasterImage, label: u8) -> Seq<bool> {
    Seq::new(img.num_pixels(), |i: int| img.channel(i, 0) == label)
}

/// The bounding rectangle of a region: left-top corner, width and height.
pub struct RegionRect {
    pub left: i32,
    pub top: i32,
    pub width: i32,
    pub height: i32,
}

/// Relies on color_clusters::HIERARCHICAL_MAX, the hierarchy depth meaning
/// "no limit", defined as `u32::MAX`.
#[verifier::external_body]
pub(crate) fn unlimited_depth() -> (r: u32)
    ensures
        r == u32::MAX,
{
    HIERARCHICAL_MAX
}

/// Relies on fastrand::Rng::u8 over the full range, which never panics.
#[verifier::external_body]
pub(crate) fn random_u8(rng: &fastrand::Rng) -> (r: u8) {
    rng.u8(..)
}

/// Relies on Runner::run of visioncortex's color clustering, which depends on
/// the image and the parameters alone. Its builder asserts that
/// `is_same_color_a` is below 8, and color_same shifts `u8` channels right by
/// it, which overflows when it is negative; with a batch size of 0 its first
/// stage never advances.
#[verifier::external_body]
pub(crate) fn run_pass(img: RasterImage, p: &PassParams) -> (r: ColorClusters)
    requires
        img.wf(),
        0 <= p.is_same_color_a < 8,
        p.batch_size > 0,
    ensures
        r == clustering_of(img.pixels@, img.width, img.height, *p),
{
    let config = RunnerConfig {
        diagonal: p.diagonal,
        hierarchical: p.hierarchical,
        batch_size: p.batch_size,
        good_min_area: p.good_min_area,
        good_max_area: p.good_max_area,
        is_same_color_a: p.is_same_color_a,
        is_same_color_b: p.is_same_color_b,
        deepen_diff: p.deepen_diff,
        hollow_neighbours: p.hollow_neighbours,
        key_color: Color::new_rgba(p.key_color.r, p.key_color.g, p.key_color.b, p.key_color.a),
        keying_action: match p.keying_action { KeyAction::Keep => KeyingAction::Keep, KeyAction::Discard => KeyingAction::Discard },
    };
    Runner::new(config, ColorImage { pixels: img.pixels, width: img.width, height: img.height }).run()
}

/// Relies on ClustersView::to_color_image: one representative color per region,
/// on a fresh image of four bytes per pixel.
#[verifier::external_body]
pub(crate) fn flatten(c: &ColorClusters) -> (r: RasterImage)
    ensures
        r.wf(),
        r == composite(*c),
{
    let img = c.view().to_color_image();
    RasterImage { pixels: img.pixels, width: img.width, height: img.height }
}

/// Relies on ClustersView::clusters_output: the emitted regions, in order.
#[verifier::external_body]
pub(crate) fn emission_order(c: &ColorClusters) -> (r: Vec<usize>)
    ensures
        r@ == emitted(*c),
{
    c.view().clusters_output.iter().map(|i| i.0 as usize).collect()
}

/// Relies on Shape::is_circle over the region's mask (Cluster::to_shape). On a
/// near-square mask it clusters the mask's difference from an ellipse of the
/// same box, which panics once 65535 components have started: a box of fewer
/// pixels cannot reach that.
#[verifier::external_body]
pub(crate) fn is_circle_region(c: &ColorClusters, id: usize) -> (r: bool)
    requires
        emitted(*c).contains(id),
        0 <= rect_of(*c, id).width,
        0 <= rect_of(*c, id).height,
        rect_of(*c, id).width * rect_of(*c, id).height < MAX_COMPONENTS,
    ensures
        r == circular(*c, id),
{
    let view = c.view();
    view.get_cluster(ClusterIndex(id as u32)).to_shape(&view).is_circle()
}

/// Relies on the region's bounding rectangle (BoundingRect::width and height).
#[verifier::external_body]
pub(crate) fn region_rect(c: &ColorClusters, id: usize) -> (r: RegionRect)
    requires
        emitted(*c).contains(id),
    ensures
        r == rect_of(*c, id),
{
    let rect = c.view().get_cluster(ClusterIndex(id as u32)).rect;
    RegionRect { left: rect.left, top: rect.top, width: rect.width(), height: rect.height() }
}

/// Relies on visioncortex::approximate_circle_with_spline. Its arcs panic on a
/// zero-length side (a diameter below 2), and its corner sums must fit in `i32`.
#[verifier::external_body]
pub(crate) fn circle_spline(left: i32, top: i32, diameter: i32) -> (r: Spline)
    requires
        2 <= diameter,
        0 <= left,
        0 <= top,
        left + diameter <= i32::MAX,
        top + diameter <= i32::MAX,
    ensures
        r == circle_of(left, top, diameter),
{
    approximate_circle_with_spline(PointI32 { x: left, y: top }, diameter)
}

/// Relies on CompoundPath::new: a path with no sub-paths.
#[verifier::external_body]
pub(crate) fn new_path() -> (r: CompoundPath) {
    CompoundPath::new()
}

/// Relies on CompoundPath::add_spline: appends one sub-path.
#[verifier::external_body]
pub(crate) fn add_spline(p: &mut CompoundPath, s: Spline)
    ensures
        *final(p) == with_spline(*old(p), s),
{
    p.add_spline(s)
}

/// Relies on color_clusters::Cluster::residue_color: the region's fill.
#[verifier::external_body]
pub(crate) fn residue_color(c: &ColorClusters, id: usize) -> (r: FillColor)
    requires
        emitted(*c).contains(id),
    ensures
        r == residue(*c, id),
{
    let color = c.view().get_cluster(ClusterIndex(id as u32)).residue_color();
    FillColor { r: color.r, g: color.g, b: color.b, a: color.a }
}

/// Relies on Color::color(&ColorName::Black): opaque black.
#[verifier::external_body]
pub(crate) fn black() -> (r: FillColor)
    ensures
        r == (FillColor { r: 0, g: 0, b: 0, a: 255 }),
{
    let color = Color::color(&ColorName::Black);
    FillColor { r: color.r, g: color.g, b: color.b, a: color.a }
}

/// Relies on ColorImage::to_binary_image: pixel (x, y) is set iff the closure
/// holds of pixel (x, y); here, iff the red channel is below 128.
#[verifier::external_body]
pub(crate) fn select_foreground(img: &RasterImage) -> (r: BinaryImage)
    requires
        img.wf(),
    ensures
        mask_of(r) == red_mask(img),
        mask_width(r) == img.width,
{
    let color = ColorImage { pixels: img.pixels.clone(), width: img.width, height: img.height };
    color.to_binary_image(|c| is_foreground(c.r))
}

/// Relies on ColorImage::to_binary_image: set iff the red channel equals `label`.
#[verifier::external_body]
pub(crate) fn select_label(img: &RasterImage, label: u8) -> (r: BinaryImage)
    requires
        img.wf(),
    ensures
        mask_of(r) == label_mask(img, label),
        mask_width(r) == img.width,
{
    let color = ColorImage { pixels: img.pixels.clone(), width: img.width, height: img.height };
    color.to_binary_image(|c| same_label(c.r, label))
}

/// Relies on BinaryImage::to_clusters with 4-neighbour adjacency. It starts a
/// component only at a set pixel whose upper and left neighbours are unset, and
/// panics once it has started 65535.
#[verifier::external_body]
pub(crate) fn components(b: &BinaryImage) -> (r: Clusters)
    requires
        count_starts(mask_of(*b), mask_width(*b) as int, mask_of(*b).len() as int) < MAX_COMPONENTS,
    ensures
        r == components_of(mask_of(*b), mask_width(*b)),
{
    b.to_clusters(false)
}

/// Relies on Clusters::len.
#[verifier::external_body]
pub(crate) fn component_count(cs: &Clusters) -> (r: usize)
    ensures
        r == component_sizes(*cs).len(),
{
    cs.len()
}

/// Relies on clusters::Cluster::size: the component's pixel count.
#[verifier::external_body]
pub(crate) fn component_size(cs: &Clusters, i: usize) -> (r: usize)
    requires
        i < component_sizes(*cs).len(),
    ensures
        r == component_sizes(*cs)[i as int],
{
    cs.get_cluster(i).size()
}

} // verus!
