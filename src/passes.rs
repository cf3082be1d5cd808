use vstd::prelude::*;
use crate::config::{ConverterConfig, Hierarchical, KeyAction};
use crate::engine::unlimited_depth;
use crate::document::FillColor;
use crate::raster::KeyColor;

verus! {

/// Pixels the engine handles per batch.
pub const BATCH_SIZE: i32 = 25600;

/// The parameters of one clustering pass.
#[derive(PartialEq, Eq, Structural, Clone, Copy, Debug)]
pub struct PassParams {
    pub diagonal: bool,
    pub hierarchical: u32,
    pub batch_size: i32,
    pub good_min_area: usize,
    pub good_max_area: usize,
    pub is_same_color_a: i32,
    pub is_same_color_b: i32,
    pub deepen_diff: i32,
    pub hollow_neighbours: usize,
    /// The key as the engine compares it: its color with alpha 0, so that the
    /// sentinel is the all-zero color and keyed pixels (alpha 0) match it.
    pub key_color: FillColor,
    pub keying_action: KeyAction,
}

/// The key handed to the engine: `key`'s color with alpha 0.
pub open spec fn engine_key(key: KeyColor) -> FillColor {
    FillColor { r: key.r, g: key.g, b: key.b, a: 0 }
}

/// The first pass over an image of `width * height` pixels.
pub open spec fn first_pass(config: ConverterConfig, width: int, height: int, key: KeyColor) -> PassParams {
    PassParams {
        diagonal: config.layer_difference == 0,
        hierarchical: u32::MAX,
        batch_size: BATCH_SIZE,
        good_min_area: config.filter_speckle_area,
        good_max_area: (width * height) as usize,
        is_same_color_a: config.color_precision_loss,
        is_same_color_b: 1,
        deepen_diff: config.layer_difference,
        hollow_neighbours: 1,
        key_color: engine_key(key),
        keying_action: if config.hierarchical == Hierarchical::Cutout {
            KeyAction::Keep
        } else {
            KeyAction::Discard
        },
    }
}

/// The cutout pass over the flattened first pass of a `width * height` image.
pub open spec fn second_pass(width: int, height: int, key: KeyColor) -> PassParams {
    PassParams {
        diagonal: false,
        hierarchical: 64,
        batch_size: BATCH_SIZE,
        good_min_area: 0,
        good_max_area: (width * height) as usize,
        is_same_color_a: 0,
        is_same_color_b: 1,
        deepen_diff: 0,
        hollow_neighbours: 0,
        key_color: engine_key(key),
        keying_action: KeyAction::Discard,
    }
}

pub fn first_pass_params(config: &ConverterConfig, width: usize, height: usize, key: KeyColor) -> (r: PassParams)
    requires
        width * height <= usize::MAX,
    ensures
        r == first_pass(*config, width as int, height as int, key),
{
    PassParams {
        diagonal: config.layer_difference == 0,
        hierarchical: unlimited_depth(),
        batch_size: BATCH_SIZE,
        good_min_area: config.filter_speckle_area,
        good_max_area: width * height,
        is_same_color_a: config.color_precision_loss,
        is_same_color_b: 1,
        deepen_diff: config.layer_difference,
        hollow_neighbours: 1,
        key_color: FillColor { r: key.r, g: key.g, b: key.b, a: 0 },
        keying_action: match config.hierarchical {
            Hierarchical::Cutout => KeyAction::Keep,
            Hierarchical::Stacked => KeyAction::Discard,
        },
    }
}

pub fn second_pass_params(width: usize, height: usize, key: KeyColor) -> (r: PassParams)
    requires
        width * height <= usize::MAX,
    ensures
        r == second_pass(width as int, height as int, key),
{
    PassParams {
        diagonal: false,
        hierarchical: 64,
        batch_size: BATCH_SIZE,
        good_min_area: 0,
        good_max_area: width * height,
        is_same_color_a: 0,
        is_same_color_b: 1,
        deepen_diff: 0,
        hollow_neighbours: 0,
        key_color: FillColor { r: key.r, g: key.g, b: key.b, a: 0 },
        keying_action: KeyAction::Discard,
    }
}

} // verus!
