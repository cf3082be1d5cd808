//! Raster-to-vector conversion: transparency keying, region clustering
//! passes, shape classification and assembly of a painted path document.

mod raster;
mod keying;
mod config;
mod passes;
mod engine;
mod document;
mod paint;
mod pipeline;

pub use raster::{ConvertError, KeyColor, RasterImage};
pub use keying::{
    apply_keying, color_exists_in_image, draw_random_colors, find_unused_color_in_image, is_foreground, key_image,
    key_image_with, same_label, should_key_image, NUM_UNUSED_COLOR_ITERATIONS,
};
pub use config::{ColorMode, ConverterConfig, Hierarchical, KeyAction, PathMode, TraceSettings};
pub use passes::{first_pass_params, second_pass_params, PassParams, BATCH_SIZE};
pub use document::{FillColor, PathEntry, VectorDocument};
pub use paint::{paint_clusters, paint_components};
pub use pipeline::{
    binary_image_to_svg, cluster_image, color_image_to_svg, color_image_to_svg_with, count_component_starts, label_occurs,
    label_raster, seg_image_to_svg, Clustering,
    LabelImage,
};
