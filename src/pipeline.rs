use vstd::prelude::*;
use visioncortex::clusters::Clusters;
use visioncortex::color_clusters::Clusters as ColorClusters;
use visioncortex::CompoundPath;
use crate::config::{ConverterConfig, Hierarchical, PathMode};
use crate::document::{FillColor, PathEntry, VectorDocument};
use crate::engine::{
    clustering_of, component_sizes, components, components_of, composite, count_starts, emitted, is_start, flatten, label_mask,
    red_mask, run_pass, select_foreground, select_label, MAX_COMPONENTS,
};
use crate::keying::{
    all_used, draw_random_colors, is_first_unused, is_keyed, key_candidates, key_image_with, needs_keying,
};
use crate::paint::{paint_clusters, paint_components, region_painted, residues, surviving};
use crate::passes::{first_pass, first_pass_params, second_pass, second_pass_params, PassParams};
use crate::raster::{ConvertError, KeyColor, RasterImage};

verus! {

/// The outcome of clustering: the final pass's regions and the passes that were run.
pub struct Clustering {
    pub clusters: ColorClusters,
    pub passes: Vec<PassParams>,
}

/// A single-channel raster of integer labels, row-major.
pub struct LabelImage {
    pub labels: Vec<u8>,
    pub width: usize,
    pub height: usize,
}

impl LabelImage {
    pub open spec fn wf(&self) -> bool {
        self.labels@.len() == self.width * self.height
    }
}

/// The first clustering pass over a keyed `width * height` image.
pub open spec fn first_clustering(pixels: Seq<u8>, width: usize, height: usize, config: ConverterConfig, key: KeyColor) -> ColorClusters {
    clustering_of(pixels, width, height, first_pass(config, width as int, height as int, key))
}

/// The passes run on a keyed image, in order: one when stacked; for cutout a
/// second, sized to the flattened composite of the first.
pub open spec fn pass_plan(pixels: Seq<u8>, width: usize, height: usize, config: ConverterConfig, key: KeyColor) -> Seq<PassParams> {
    let flat = composite(first_clustering(pixels, width, height, config, key));
    match config.hierarchical {
        Hierarchical::Stacked => seq![first_pass(config, width as int, height as int, key)],
        Hierarchical::Cutout => seq![
            first_pass(config, width as int, height as int, key),
            second_pass(flat.width as int, flat.height as int, key),
        ],
    }
}

/// The final clustering of a keyed `width * height` image: the first pass
/// itself when stacked; for cutout, a second pass over its flattened composite.
pub open spec fn final_clustering(pixels: Seq<u8>, width: usize, height: usize, config: ConverterConfig, key: KeyColor) -> ColorClusters {
    let first = first_clustering(pixels, width, height, config, key);
    match config.hierarchical {
        Hierarchical::Stacked => first,
        Hierarchical::Cutout => {
            let flat = composite(first);
            clustering_of(flat.pixels@, flat.width, flat.height, second_pass(flat.width as int, flat.height as int, key))
        },
    }
}

/// `doc` paints the emitted regions of `c` in reverse emission order, each in
/// its residue color, as a circle or as what `trace` gave.
pub open spec fn painted_from<F: Fn(&ColorClusters, usize) -> CompoundPath>(
    doc: &VectorDocument,
    c: ColorClusters,
    mode: PathMode,
    trace: F,
) -> bool {
    doc.regions() == emitted(c).reverse() && doc.fills() == residues(c, emitted(c).reverse())
        && forall|j: int| 0 <= j < doc.entries@.len() ==> region_painted(c, mode, trace, #[trigger] doc.entries@[j])
}

/// Every entry of `doc` is filled opaque black.
pub open spec fn all_black(doc: &VectorDocument) -> bool {
    forall|j: int| 0 <= j < doc.fills().len() ==> #[trigger] doc.fills()[j] == (FillColor { r: 0, g: 0, b: 0, a: 255 })
}

/// The mask of the pixels with label `v`.
pub open spec fn labels_mask(labels: Seq<u8>, v: u8) -> Seq<bool> {
    Seq::new(labels.len(), |i: int| labels[i] == v)
}

/// The painted components of segmentation mode for the label values below `v`,
/// in increasing label order.
pub open spec fn seg_regions(labels: Seq<u8>, width: usize, floor: usize, v: int) -> Seq<usize>
    decreases v,
{
    if v <= 0 {
        Seq::empty()
    } else if labels.contains((v - 1) as u8) {
        seg_regions(labels, width, floor, v - 1)
            + surviving(component_sizes(components_of(labels_mask(labels, (v - 1) as u8), width)), floor)
    } else {
        seg_regions(labels, width, floor, v - 1)
    }
}

/// The path of `e` is what `trace` gave for its region among the components
/// of some label's mask.
pub open spec fn traced_component<F: Fn(&Clusters, usize) -> CompoundPath>(
    labels: Seq<u8>,
    width: usize,
    trace: F,
    e: PathEntry,
) -> bool {
    exists|u: u8| call_ensures(trace, (&components_of(labels_mask(labels, u), width), e.region), e.path)
}

/// For every label value below `v` that occurs, the engine starts fewer
/// components than it can number.
pub open spec fn labels_fit(labels: Seq<u8>, width: usize, v: int) -> bool {
    forall|u: u8| u < v && labels.contains(u)
        ==> count_starts(#[trigger] labels_mask(labels, u), width as int, labels.len() as int) < MAX_COMPONENTS
}

/// Clusters `img` by color: one pass when stacked; for cutout, a second pass
/// over the flattened first one.
pub fn cluster_image(img: RasterImage, config: &ConverterConfig, key: KeyColor) -> (r: Clustering)
    requires
        img.wf(),
        0 <= config.color_precision_loss < 8,
    ensures
        r.passes@ == pass_plan(img.pixels@, img.width, img.height, *config, key),
        r.clusters == final_clustering(img.pixels@, img.width, img.height, *config, key),
{
    let width: usize = img.width;
    let height: usize = img.height;
    let len: usize = img.pixels.len();
    assert(width * height <= len);
    let ghost pixels = img.pixels@;
    let first_params: PassParams = first_pass_params(config, width, height, key);
    let mut passes: Vec<PassParams> = Vec::new();
    passes.push(first_params);
    let first: ColorClusters = run_pass(img, &first_params);
    match config.hierarchical {
        Hierarchical::Stacked => {
            assert(passes@ =~= pass_plan(pixels, width, height, *config, key));
            Clustering { clusters: first, passes }
        },
        Hierarchical::Cutout => {
            let flat: RasterImage = flatten(&first);
            let flat_len: usize = flat.pixels.len();
            assert(flat.width * flat.height <= flat_len);
            let second_params: PassParams = second_pass_params(flat.width, flat.height, key);
            passes.push(second_params);
            assert(passes@ =~= pass_plan(pixels, width, height, *config, key));
            let second: ColorClusters = run_pass(flat, &second_params);
            Clustering { clusters: second, passes }
        },
    }
}

/// Converts a color raster with the given random key candidates: keys
/// transparency, clusters, then paints the final pass's regions in reverse
/// emission order, tracing outlines with `trace`.
pub fn color_image_to_svg_with<F: Fn(&ColorClusters, usize) -> CompoundPath>(
    img: RasterImage,
    config: &ConverterConfig,
    random: &Vec<KeyColor>,
    trace: F,
) -> (r: Result<VectorDocument, ConvertError>)
    requires
        img.wf(),
        0 <= config.color_precision_loss < 8,
        forall|c: &ColorClusters, id: usize| trace.requires((c, id)),
    ensures
        match r {
            Ok(doc) => doc.width == img.width && doc.height == img.height && doc.precision == config.path_precision
                && (!needs_keying(&img) ==> painted_from(&doc,
                    final_clustering(img.pixels@, img.width, img.height, *config, KeyColor { r: 0, g: 0, b: 0 }), config.trace.mode, trace))
                && (needs_keying(&img) ==> exists|key: KeyColor, keyed: RasterImage|
                    is_first_unused(&img, key_candidates(random@), key) && #[trigger] is_keyed(&keyed, &img, key)
                    && painted_from(&doc, final_clustering(keyed.pixels@, img.width, img.height, *config, key), config.trace.mode, trace)),
            Err(e) => e == ConvertError::KeyColorExhausted && needs_keying(&img)
                && all_used(&img, key_candidates(random@)) && all_used(&img, key_candidates(Seq::empty())),
        },
        !needs_keying(&img) ==> r is Ok,
{
    let width: usize = img.width;
    let height: usize = img.height;
    let ghost original = img;
    let mut img = img;
    let key: KeyColor = match key_image_with(&mut img, random) {
        Ok(key) => key,
        Err(e) => {
            proof {
                assert forall|j: int| 0 <= j < key_candidates(Seq::empty()).len()
                    implies original.has_color(#[trigger] key_candidates(Seq::empty())[j]) by {
                    assert(key_candidates(random@)[j] == key_candidates(Seq::empty())[j]);
                }
            }
            return Err(e);
        },
    };
    let ghost keyed = img;
    let clustering: Clustering = cluster_image(img, config, key);
    let mut doc: VectorDocument = VectorDocument::new(width, height, config.path_precision);
    paint_clusters(&clustering.clusters, config.trace.mode, trace, &mut doc);
    proof {
        assert(doc.regions() =~= emitted(clustering.clusters).reverse());
        assert(doc.fills() =~= residues(clustering.clusters, emitted(clustering.clusters).reverse()));
        if needs_keying(&original) {
            assert(is_keyed(&keyed, &original, key));
        }
    }
    Ok(doc)
}

/// Converts a color raster, drawing the random key candidates from `rng`.
pub fn color_image_to_svg<F: Fn(&ColorClusters, usize) -> CompoundPath>(
    img: RasterImage,
    config: &ConverterConfig,
    rng: &fastrand::Rng,
    trace: F,
) -> (r: Result<VectorDocument, ConvertError>)
    requires
        img.wf(),
        0 <= config.color_precision_loss < 8,
        forall|c: &ColorClusters, id: usize| trace.requires((c, id)),
    ensures
        match r {
            Ok(doc) => doc.width == img.width && doc.height == img.height && doc.precision == config.path_precision
                && (!needs_keying(&img) ==> painted_from(&doc,
                    final_clustering(img.pixels@, img.width, img.height, *config, KeyColor { r: 0, g: 0, b: 0 }), config.trace.mode, trace))
                && (needs_keying(&img) ==> exists|key: KeyColor, keyed: RasterImage|
                    !img.has_color(key) && #[trigger] is_keyed(&keyed, &img, key)
                    && painted_from(&doc, final_clustering(keyed.pixels@, img.width, img.height, *config, key), config.trace.mode, trace)),
            Err(e) => e == ConvertError::KeyColorExhausted && needs_keying(&img)
                && all_used(&img, key_candidates(Seq::empty())),
        },
        !needs_keying(&img) ==> r is Ok,
{
    let random: Vec<KeyColor> = draw_random_colors(rng);
    color_image_to_svg_with(img, config, &random, trace)
}

/// The binary-mode foreground mask (`label` is `None`), or the mask of the
/// pixels carrying `label` in the red channel.
pub open spec fn selected_mask(img: &RasterImage, label: Option<u8>) -> Seq<bool> {
    match label {
        Option::Some(v) => label_mask(img, v),
        Option::None => red_mask(img),
    }
}

fn selects(red: u8, label: Option<u8>) -> (b: bool)
    ensures
        b == match label {
            Option::Some(v) => red == v,
            Option::None => red < 128,
        },
{
    match label {
        Option::Some(v) => red == v,
        Option::None => red < 128,
    }
}

/// Number of pixels at which the engine starts a new component of the
/// selected mask: set pixels whose upper and left neighbours are unset.
pub fn count_component_starts(img: &RasterImage, label: Option<u8>) -> (r: usize)
    requires
        img.wf(),
    ensures
        r == count_starts(selected_mask(img, label), img.width as int, img.num_pixels() as int),
{
    let ghost mask = selected_mask(img, label);
    let len: usize = img.pixels.len();
    let n: usize = len / 4;
    let w: usize = img.width;
    assert(n == img.num_pixels());
    let mut count: usize = 0;
    let mut i: usize = 0;
    while i < n
        invariant
            img.wf(),
            w == img.width,
            n == img.num_pixels(),
            n == w * img.height,
            4 * n == len,
            mask.len() == n,
            mask == selected_mask(img, label),
            i <= n,
            count <= i,
            count == count_starts(mask, w as int, i as int),
        decreases n - i,
    {
        assert(w > 0) by (nonlinear_arith) requires i < n, n == w * img.height;
        let here: bool = selects(img.pixels[4 * i], label);
        let up: bool = i >= w && selects(img.pixels[4 * (i - w)], label);
        let left: bool = i > 0 && i % w != 0 && selects(img.pixels[4 * (i - 1)], label);
        assert(here == mask[i as int]);
        assert(i >= w ==> up == mask[i - w]);
        assert((i > 0 && i % w != 0) ==> left == mask[i - 1]);
        if i == 0 {
            assert(0int % (w as int) == 0);
        }
        if here && !up && !left {
            count = count + 1;
        }
        i = i + 1;
    }
    count
}

/// Converts a binary raster: a pixel is foreground iff its red channel is below
/// 128; each 4-connected foreground component of at least the speckle floor is
/// traced by `trace` and painted black, in the engine's order. Fails when the
/// foreground has too many pixels for the engine to number its components.
pub fn binary_image_to_svg<F: Fn(&Clusters, usize) -> CompoundPath>(
    img: RasterImage,
    config: &ConverterConfig,
    trace: F,
) -> (r: Result<VectorDocument, ConvertError>)
    requires
        img.wf(),
        forall|c: &Clusters, i: usize| trace.requires((c, i)),
    ensures
        count_starts(red_mask(&img), img.width as int, img.num_pixels() as int) < MAX_COMPONENTS <==> r is Ok,
        match r {
            Ok(doc) => doc.width == img.width && doc.height == img.height && doc.precision == config.path_precision
                && doc.regions() == surviving(component_sizes(components_of(red_mask(&img), img.width)), config.filter_speckle_area)
                && all_black(&doc)
                && forall|j: int| 0 <= j < doc.entries@.len() ==> call_ensures(trace,
                    (&components_of(red_mask(&img), img.width), #[trigger] doc.entries@[j].region), doc.entries@[j].path),
            Err(e) => e == ConvertError::TooManyRegions,
        },
{
    if count_component_starts(&img, Option::None) >= MAX_COMPONENTS {
        return Err(ConvertError::TooManyRegions);
    }
    let mask = select_foreground(&img);
    let comps: Clusters = components(&mask);
    let mut doc: VectorDocument = VectorDocument::new(img.width, img.height, config.path_precision);
    paint_components(&comps, config.filter_speckle_area, trace, &mut doc);
    assert(doc.regions() =~= surviving(component_sizes(comps), config.filter_speckle_area));
    Ok(doc)
}

/// The label raster as an opaque gray RGBA raster: each label in the three color channels.
pub fn label_raster(img: &LabelImage) -> (r: RasterImage)
    requires
        img.wf(),
        4 * img.labels@.len() <= usize::MAX,
    ensures
        r.wf(),
        r.width == img.width,
        r.height == img.height,
        forall|i: int, c: int| 0 <= i < img.labels@.len() && 0 <= c < 3 ==> #[trigger] r.channel(i, c) == img.labels@[i],
        forall|i: int| 0 <= i < img.labels@.len() ==> #[trigger] r.channel(i, 3) == 255,
{
    let mut pixels: Vec<u8> = Vec::new();
    let mut i: usize = 0;
    while i < img.labels.len()
        invariant
            i <= img.labels@.len(),
            pixels@.len() == 4 * i,
            forall|q: int, c: int| 0 <= q < i && 0 <= c < 3 ==> #[trigger] pixels@[4 * q + c] == img.labels@[q],
            forall|q: int| 0 <= q < i ==> #[trigger] pixels@[4 * q + 3] == 255,
        decreases img.labels@.len() - i,
    {
        let v: u8 = img.labels[i];
        pixels.push(v);
        pixels.push(v);
        pixels.push(v);
        pixels.push(255u8);
        i = i + 1;
    }
    RasterImage { pixels, width: img.width, height: img.height }
}

/// Whether some pixel of `img` has label `v`.
pub fn label_occurs(img: &LabelImage, v: u8) -> (r: bool)
    ensures
        r == img.labels@.contains(v),
{
    let mut i: usize = 0;
    while i < img.labels.len()
        invariant
            i <= img.labels@.len(),
            forall|q: int| 0 <= q < i ==> img.labels@[q] != v,
        decreases img.labels@.len() - i,
    {
        if img.labels[i] == v {
            return true;
        }
        i = i + 1;
    }
    false
}

/// Converts a label raster: for each label value present, in increasing order,
/// each 4-connected component of that label with at least the speckle floor of
/// pixels is traced by `trace` and painted black. Fails, before painting
/// anything, when a label covers too many pixels for the engine to number its
/// components.
pub fn seg_image_to_svg<F: Fn(&Clusters, usize) -> CompoundPath>(
    img: LabelImage,
    config: &ConverterConfig,
    trace: F,
) -> (r: Result<VectorDocument, ConvertError>)
    requires
        img.wf(),
        4 * img.labels@.len() <= usize::MAX,
        forall|c: &Clusters, i: usize| trace.requires((c, i)),
    ensures
        labels_fit(img.labels@, img.width, 256) <==> r is Ok,
        match r {
            Ok(doc) => doc.width == img.width && doc.height == img.height && doc.precision == config.path_precision
                && doc.regions() == seg_regions(img.labels@, img.width, config.filter_speckle_area, 256)
                && all_black(&doc)
                && forall|j: int| 0 <= j < doc.entries@.len() ==> traced_component(img.labels@, img.width, trace, #[trigger] doc.entries@[j]),
            Err(e) => e == ConvertError::TooManyRegions,
        },
{
    let gray: RasterImage = label_raster(&img);
    proof {
        assert forall|u: u8| #[trigger] label_mask(&gray, u) == labels_mask(img.labels@, u) by {
            assert(label_mask(&gray, u) =~= labels_mask(img.labels@, u));
        }
    }
    let mut v: u16 = 0;
    while v < 256
        invariant
            v <= 256,
            gray.wf(),
            gray.width == img.width,
            img.labels@.len() == gray.num_pixels(),
            forall|u: u8| #[trigger] label_mask(&gray, u) == labels_mask(img.labels@, u),
            labels_fit(img.labels@, img.width, v as int),
        decreases 256 - v,
    {
        let label: u8 = v as u8;
        if label_occurs(&img, label) {
            if count_component_starts(&gray, Option::Some(label)) >= MAX_COMPONENTS {
                assert(!labels_fit(img.labels@, img.width, 256)) by {
                    assert(selected_mask(&gray, Option::Some(label)) == labels_mask(img.labels@, label));
                }
                return Err(ConvertError::TooManyRegions);
            }
        }
        v = v + 1;
    }
    let mut doc: VectorDocument = VectorDocument::new(img.width, img.height, config.path_precision);
    let mut v: u16 = 0;
    while v < 256
        invariant
            v <= 256,
            gray.wf(),
            gray.width == img.width,
            img.labels@.len() == gray.num_pixels(),
            forall|u: u8| #[trigger] label_mask(&gray, u) == labels_mask(img.labels@, u),
            labels_fit(img.labels@, img.width, 256),
            doc.width == img.width,
            doc.height == img.height,
            doc.precision == config.path_precision,
            forall|c: &Clusters, i: usize| trace.requires((c, i)),
            doc.regions() == seg_regions(img.labels@, img.width, config.filter_speckle_area, v as int),
            all_black(&doc),
            forall|j: int| 0 <= j < doc.entries@.len() ==> traced_component(img.labels@, img.width, trace, #[trigger] doc.entries@[j]),
        decreases 256 - v,
    {
        let label: u8 = v as u8;
        if label_occurs(&img, label) {
            let mask = select_label(&gray, label);
            assert(count_starts(labels_mask(img.labels@, label), img.width as int, img.labels@.len() as int) < MAX_COMPONENTS);
            let comps: Clusters = components(&mask);
            let ghost before = doc;
            paint_components(&comps, config.filter_speckle_area, &trace, &mut doc);
            proof {
                assert forall|j: int| 0 <= j < doc.entries@.len()
                    implies traced_component(img.labels@, img.width, trace, #[trigger] doc.entries@[j]) by {
                    if j < before.entries@.len() {
                        assert(doc.entries@.subrange(0, before.entries@.len() as int)[j] == before.entries@[j]);
                        assert(traced_component(img.labels@, img.width, trace, before.entries@[j]));
                    } else {
                        assert(call_ensures(trace, (&comps, doc.entries@[j].region), doc.entries@[j].path));
                        assert(comps == components_of(labels_mask(img.labels@, label), img.width));
                        assert(call_ensures(trace, (&components_of(labels_mask(img.labels@, label), img.width),
                            doc.entries@[j].region), doc.entries@[j].path));
                    }
                }
                assert forall|j: int| 0 <= j < doc.fills().len() implies #[trigger] doc.fills()[j] == (FillColor { r: 0, g: 0, b: 0, a: 255 }) by {
                    if j >= before.fills().len() {
                        assert(doc.fills()[j] == Seq::new(
                            surviving(component_sizes(comps), config.filter_speckle_area).len(),
                            |j: int| FillColor { r: 0, g: 0, b: 0, a: 255 },
                        )[j - before.fills().len()]);
                    } else {
                        assert(doc.fills()[j] == before.fills()[j]);
                    }
                }
            }
        }
        v = v + 1;
    }
    Ok(doc)
}

} // verus!
