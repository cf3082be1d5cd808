use visioncortex::clusters::Clusters;
use visioncortex::color_clusters::{ClusterIndex, Clusters as ColorClusters};
use visioncortex::{CompoundPath, PathSimplifyMode};
use vtracer_core::{
    binary_image_to_svg, cluster_image, color_image_to_svg, first_pass_params, label_occurs, label_raster,
    second_pass_params, seg_image_to_svg, ColorMode, ConverterConfig, FillColor, Hierarchical,
    KeyAction, KeyColor, LabelImage, PathMode, RasterImage, TraceSettings, BATCH_SIZE, ConvertError,
    color_image_to_svg_with, count_component_starts,
};

fn config(mode: ColorMode, hierarchical: Hierarchical, speckle: usize) -> ConverterConfig {
    ConverterConfig {
        color_mode: mode,
        hierarchical,
        filter_speckle_area: speckle,
        color_precision_loss: 2,
        layer_difference: 16,
        trace: TraceSettings {
            mode: PathMode::Polygon,
            corner_threshold: 60,
            length_threshold: 4,
            max_iterations: 10,
            splice_threshold: 45,
        },
        path_precision: Some(2),
    }
}

fn trace_region(c: &ColorClusters, id: usize) -> CompoundPath {
    let view = c.view();
    view.get_cluster(ClusterIndex(id as u32)).to_compound_path(&view, false, PathSimplifyMode::Polygon, 1.0, 4.0, 10, 0.8)
}

fn trace_component(c: &Clusters, i: usize) -> CompoundPath {
    c.get_cluster(i).to_compound_path(PathSimplifyMode::Polygon, 1.0, 4.0, 10, 0.8)
}

fn gray(width: usize, height: usize, values: &[u8]) -> RasterImage {
    let mut img = RasterImage::new_w_h(width, height);
    for (i, v) in values.iter().enumerate() {
        img.pixels[4 * i] = *v;
        img.pixels[4 * i + 1] = *v;
        img.pixels[4 * i + 2] = *v;
        img.pixels[4 * i + 3] = 255;
    }
    img
}

#[test]
fn uniform_image_yields_one_path() {
    let img = gray(4, 4, &[90; 16]);
    let rng = fastrand::Rng::with_seed(1);
    let doc = color_image_to_svg(img, &config(ColorMode::Color, Hierarchical::Stacked, 0), &rng, trace_region).unwrap();
    assert_eq!(doc.width, 4);
    assert_eq!(doc.height, 4);
    assert_eq!(doc.precision, Some(2));
    assert_eq!(doc.len(), 1);
    assert_eq!(doc.entries[0].color, FillColor { r: 90, g: 90, b: 90, a: 255 });
    let clustering = cluster_image(gray(4, 4, &[90; 16]), &config(ColorMode::Color, Hierarchical::Stacked, 0), KeyColor::none());
    let view = clustering.clusters.view();
    assert_eq!(view.clusters_output.len(), 1);
    let rect = view.get_cluster(view.clusters_output[0]).rect;
    assert_eq!((rect.left, rect.top, rect.width(), rect.height()), (0, 0, 4, 4));
    assert_eq!(doc.entries[0].region, view.clusters_output[0].0 as usize);
}

#[test]
fn uniform_image_cutout_yields_one_path() {
    let img = gray(4, 4, &[90; 16]);
    let rng = fastrand::Rng::with_seed(1);
    let doc = color_image_to_svg(img, &config(ColorMode::Color, Hierarchical::Cutout, 0), &rng, trace_region).unwrap();
    assert_eq!(doc.len(), 1);
}

#[test]
fn paint_order_is_reverse_of_emission_order() {
    let mut values = [200u8; 64];
    for i in 0..64 {
        if i % 8 < 4 {
            values[i] = 10;
        }
    }
    let cfg = config(ColorMode::Color, Hierarchical::Stacked, 0);
    let clustering = cluster_image(gray(8, 8, &values), &cfg, KeyColor::none());
    let emitted: Vec<usize> = clustering.clusters.view().clusters_output.iter().map(|i| i.0 as usize).collect();
    let doc = color_image_to_svg(gray(8, 8, &values), &cfg, &fastrand::Rng::with_seed(1), trace_region).unwrap();
    let painted: Vec<usize> = doc.entries.iter().map(|e| e.region).collect();
    let mut reversed = emitted.clone();
    reversed.reverse();
    assert!(!painted.is_empty());
    assert_eq!(painted, reversed);
}

#[test]
fn stacked_runs_one_pass() {
    let cfg = config(ColorMode::Color, Hierarchical::Stacked, 3);
    let clustering = cluster_image(gray(4, 2, &[1; 8]), &cfg, KeyColor::none());
    assert_eq!(clustering.passes.len(), 1);
    assert_eq!(clustering.passes[0], first_pass_params(&cfg, 4, 2, KeyColor::none()));
    assert_eq!(clustering.passes[0].keying_action, KeyAction::Discard);
}

#[test]
fn cutout_runs_two_passes() {
    let key = KeyColor { r: 0, g: 255, b: 0 };
    let cfg = config(ColorMode::Color, Hierarchical::Cutout, 3);
    let clustering = cluster_image(gray(4, 2, &[1; 8]), &cfg, key);
    assert_eq!(clustering.passes.len(), 2);
    assert_eq!(clustering.passes[0].keying_action, KeyAction::Keep);
    assert_eq!(clustering.passes[1], second_pass_params(4, 2, key));
}

#[test]
fn first_pass_parameters() {
    let cfg = config(ColorMode::Color, Hierarchical::Stacked, 3);
    let p = first_pass_params(&cfg, 6, 5, KeyColor::none());
    assert!(!p.diagonal);
    assert_eq!(p.hierarchical, u32::MAX);
    assert_eq!(p.batch_size, BATCH_SIZE);
    assert_eq!(p.batch_size, 25600);
    assert_eq!(p.good_min_area, 3);
    assert_eq!(p.good_max_area, 30);
    assert_eq!(p.is_same_color_a, 2);
    assert_eq!(p.is_same_color_b, 1);
    assert_eq!(p.deepen_diff, 16);
    assert_eq!(p.hollow_neighbours, 1);
    let mut flat = cfg;
    flat.layer_difference = 0;
    assert!(first_pass_params(&flat, 6, 5, KeyColor::none()).diagonal);
}

#[test]
fn second_pass_parameters() {
    let key = KeyColor { r: 1, g: 2, b: 3 };
    let p = second_pass_params(6, 5, key);
    assert!(!p.diagonal);
    assert_eq!(p.hierarchical, 64);
    assert_eq!(p.good_min_area, 0);
    assert_eq!(p.good_max_area, 30);
    assert_eq!(p.is_same_color_a, 0);
    assert_eq!(p.is_same_color_b, 1);
    assert_eq!(p.deepen_diff, 0);
    assert_eq!(p.hollow_neighbours, 0);
    assert_eq!(p.key_color, FillColor { r: 1, g: 2, b: 3, a: 0 });
    assert_eq!(p.keying_action, KeyAction::Discard);
}

#[test]
fn binary_isolated_pixels_by_speckle_floor() {
    // diagonal foreground pixels are two components under 4-neighbour adjacency
    let values = [0u8, 255, 255, 0];
    let doc = binary_image_to_svg(gray(2, 2, &values), &config(ColorMode::Binary, Hierarchical::Stacked, 1), trace_component).unwrap();
    assert_eq!(doc.len(), 2);
    assert_eq!(doc.entries[0].color, FillColor { r: 0, g: 0, b: 0, a: 255 });
    let doc = binary_image_to_svg(gray(2, 2, &values), &config(ColorMode::Binary, Hierarchical::Stacked, 2), trace_component).unwrap();
    assert_eq!(doc.len(), 0);
}

#[test]
fn binary_column_is_one_component() {
    // row-major [0, 255, 0, 255]: the left column is foreground and 4-connected
    let values = [0u8, 255, 0, 255];
    let doc = binary_image_to_svg(gray(2, 2, &values), &config(ColorMode::Binary, Hierarchical::Stacked, 2), trace_component).unwrap();
    assert_eq!(doc.len(), 1);
    let doc = binary_image_to_svg(gray(2, 2, &values), &config(ColorMode::Binary, Hierarchical::Stacked, 3), trace_component).unwrap();
    assert_eq!(doc.len(), 0);
}

#[test]
fn label_raster_spreads_labels() {
    let img = LabelImage { labels: vec![3, 7], width: 2, height: 1 };
    let r = label_raster(&img);
    assert_eq!(r.pixels, vec![3, 3, 3, 255, 7, 7, 7, 255]);
    assert!(label_occurs(&img, 7));
    assert!(!label_occurs(&img, 4));
}

#[test]
fn seg_paints_each_label_component() {
    let img = LabelImage { labels: vec![1, 1, 2, 2], width: 2, height: 2 };
    let doc = seg_image_to_svg(img, &config(ColorMode::Seg, Hierarchical::Stacked, 0), trace_component).unwrap();
    assert_eq!(doc.len(), 2);
    assert_eq!(doc.width, 2);
    assert!(doc.entries.iter().all(|e| e.color == FillColor { r: 0, g: 0, b: 0, a: 255 }));
}

#[test]
fn seg_drops_small_components() {
    let img = LabelImage { labels: vec![1, 1, 1, 2], width: 2, height: 2 };
    let doc = seg_image_to_svg(img, &config(ColorMode::Seg, Hierarchical::Stacked, 2), trace_component).unwrap();
    assert_eq!(doc.len(), 1);
}

fn rgba(width: usize, height: usize, f: impl Fn(usize, usize) -> [u8; 4]) -> RasterImage {
    let mut img = RasterImage::new_w_h(width, height);
    for y in 0..height {
        for x in 0..width {
            let p = f(x, y);
            img.pixels[4 * (y * width + x)..4 * (y * width + x) + 4].copy_from_slice(&p);
        }
    }
    img
}

#[test]
fn opaque_black_region_is_painted() {
    // a black left half and a white right half, no transparency: black must not be keyed away
    let img = rgba(8, 8, |x, _| if x < 4 { [0, 0, 0, 255] } else { [255, 255, 255, 255] });
    let doc = color_image_to_svg_with(img, &config(ColorMode::Color, Hierarchical::Stacked, 0), &vec![], trace_region).unwrap();
    assert!(doc.entries.iter().any(|e| e.color == FillColor { r: 0, g: 0, b: 0, a: 255 }));
    let total: usize = doc.len();
    assert!(total >= 2);
}

#[test]
fn keyed_transparency_is_not_painted() {
    // the right half is fully transparent: it is keyed red and dropped by the engine
    let img = rgba(8, 8, |x, _| if x < 4 { [0, 0, 200, 255] } else { [9, 9, 9, 0] });
    let doc = color_image_to_svg_with(img, &config(ColorMode::Color, Hierarchical::Stacked, 0), &vec![], trace_region).unwrap();
    assert!(doc.len() >= 1);
    assert!(doc.entries.iter().all(|e| (e.color.r, e.color.g, e.color.b) != (255, 0, 0)));
    assert!(doc.entries.iter().any(|e| (e.color.r, e.color.g, e.color.b) == (0, 0, 200)));
}

#[test]
fn keying_exhausted_returns_error() {
    let colors: [[u8; 4]; 6] = [[255, 0, 0, 0], [0, 255, 0, 255], [0, 0, 255, 255], [255, 255, 0, 255], [0, 255, 255, 255], [255, 0, 255, 0]];
    let img = rgba(6, 1, |x, _| colors[x]);
    let r = color_image_to_svg_with(img, &config(ColorMode::Color, Hierarchical::Stacked, 0), &vec![], trace_region);
    assert!(matches!(r, Err(ConvertError::KeyColorExhausted)));
}

#[test]
fn binary_large_foreground_is_converted() {
    let img = gray(256, 256, &[0u8; 65536]);
    assert_eq!(count_component_starts(&img, None), 1);
    let doc = binary_image_to_svg(img, &config(ColorMode::Binary, Hierarchical::Stacked, 0), trace_component).unwrap();
    assert_eq!(doc.len(), 1);
}

#[test]
fn binary_too_many_components_is_an_error() {
    // a 512 x 256 checkerboard has 65536 isolated foreground pixels
    let values: Vec<u8> = (0..512 * 256).map(|i| if (i % 512 + i / 512) % 2 == 0 { 0 } else { 255 }).collect();
    let img = gray(512, 256, &values);
    assert_eq!(count_component_starts(&img, None), 65536);
    let r = binary_image_to_svg(img, &config(ColorMode::Binary, Hierarchical::Stacked, 0), trace_component);
    assert!(matches!(r, Err(ConvertError::TooManyRegions)));
    assert_eq!(ConvertError::TooManyRegions.message(), "too many regions in image");
}

#[test]
fn seg_large_label_is_converted() {
    let img = LabelImage { labels: vec![7u8; 65536], width: 256, height: 256 };
    let doc = seg_image_to_svg(img, &config(ColorMode::Seg, Hierarchical::Stacked, 0), trace_component).unwrap();
    assert_eq!(doc.len(), 1);
}

#[test]
fn count_component_starts_counts_new_components() {
    // foreground: (0,0), (1,0), (1,1); (1,0) and (1,1) join the component started at (0,0)
    let img = gray(2, 2, &[0, 127, 128, 5]);
    assert_eq!(count_component_starts(&img, None), 1);
    assert_eq!(count_component_starts(&img, Some(5)), 1);
    assert_eq!(count_component_starts(&img, Some(128)), 1);
    let img = gray(3, 1, &[0, 200, 0]);
    assert_eq!(count_component_starts(&img, None), 2);
}
