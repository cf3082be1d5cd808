use vstd::prelude::*;

verus! {

/// Which kind of raster is converted.
#[derive(PartialEq, Eq, Structural, Clone, Copy, Debug)]
pub enum ColorMode {
    Color,
    Binary,
    Seg,
}

/// How the clustering hierarchy becomes a stack of shapes.
#[derive(PartialEq, Eq, Structural, Clone, Copy, Debug)]
pub enum Hierarchical {
    /// Shapes are stacked on top of each other, as the first pass emits them.
    Stacked,
    /// The first pass is flattened and clustered again into disjoint shapes.
    Cutout,
}

/// How traced outlines are simplified.
#[derive(PartialEq, Eq, Structural, Clone, Copy, Debug)]
pub enum PathMode {
    /// Pixel-exact outlines, no simplification.
    Unsimplified,
    Polygon,
    Spline,
}

/// Whether pixels of the key color stay a region of their own or are dropped.
#[derive(PartialEq, Eq, Structural, Clone, Copy, Debug)]
pub enum KeyAction {
    Keep,
    Discard,
}

/// The tolerances with which region outlines are traced and fitted.
#[derive(PartialEq, Eq, Structural, Clone, Copy, Debug)]
pub struct TraceSettings {
    pub mode: PathMode,
    /// Minimum angle, in degrees, that counts as a corner.
    pub corner_threshold: i32,
    /// Minimum segment length, in pixels.
    pub length_threshold: u32,
    /// Maximum curve-fitting iterations.
    pub max_iterations: usize,
    /// Angle, in degrees, above which a path is spliced into separate curves.
    pub splice_threshold: i32,
}

/// Everything a conversion is configured with.
#[derive(PartialEq, Eq, Structural, Clone, Copy, Debug)]
pub struct ConverterConfig {
    pub color_mode: ColorMode,
    pub hierarchical: Hierarchical,
    /// Regions with fewer pixels are dropped.
    pub filter_speckle_area: usize,
    /// Color-similarity tolerance of the clustering engine, from 0 to 7: the low
    /// bits of each channel ignored when comparing colors.
    pub color_precision_loss: i32,
    /// Zero selects diagonal adjacency; otherwise the hierarchy deepens by this much.
    pub layer_difference: i32,
    pub trace: TraceSettings,
    /// Decimal places of the output coordinates.
    pub path_precision: Option<u32>,
}

} // verus!
