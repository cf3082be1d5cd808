use vstd::prelude::*;

verus! {

/// An RGB color. The all-zero value is the sentinel that means "no keying".
#[derive(PartialEq, Eq, Structural, Clone, Copy, Debug)]
pub struct KeyColor {
    pub r: u8,
    pub g: u8,
    pub b: u8,
}

impl KeyColor {
    pub open spec fn is_sentinel(self) -> bool {
        self.r == 0 && self.g == 0 && self.b == 0
    }

    /// The sentinel color, telling the clustering engine that no pixel is keyed.
    pub fn none() -> (r: KeyColor)
        ensures
            r.is_sentinel(),
    {
        KeyColor { r: 0, g: 0, b: 0 }
    }
}

/// A row-major RGBA raster: four bytes per pixel, pixel `(x, y)` at byte `4 * (y * width + x)`.
pub struct RasterImage {
    pub pixels: Vec<u8>,
    pub width: usize,
    pub height: usize,
}

impl RasterImage {
    pub open spec fn wf(&self) -> bool {
        self.pixels@.len() == 4 * (self.width * self.height)
    }

    pub open spec fn num_pixels(&self) -> nat {
        (self.width * self.height) as nat
    }

    /// Byte `c` (0 = red, 1 = green, 2 = blue, 3 = alpha) of the pixel with flat index `i`.
    pub open spec fn channel(&self, i: int, c: int) -> u8 {
        self.pixels@[4 * i + c]
    }

    pub open spec fn alpha_at(&self, x: int, y: int) -> u8 {
        self.channel(y * self.width + x, 3)
    }

    pub open spec fn color_of(&self, i: int) -> KeyColor {
        KeyColor { r: self.channel(i, 0), g: self.channel(i, 1), b: self.channel(i, 2) }
    }

    /// Whether some pixel has the color channels of `c` (alpha is not compared).
    pub open spec fn has_color(&self, c: KeyColor) -> bool {
        exists|i: int| 0 <= i < self.num_pixels() && #[trigger] self.color_of(i) == c
    }

    /// A fully transparent image of the given size.
    pub fn new_w_h(width: usize, height: usize) -> (r: RasterImage)
        requires
            4 * (width * height) <= usize::MAX,
        ensures
            r.wf(),
            r.width == width,
            r.height == height,
            forall|j: int| 0 <= j < r.pixels@.len() ==> r.pixels@[j] == 0,
    {
        let n: usize = 4 * (width * height);
        let pixels: Vec<u8> = vec![0u8; n];
        RasterImage { pixels, width, height }
    }
}

} // verus!

verus! {

/// Why a conversion was abandoned; no partial document is produced.
#[derive(PartialEq, Eq, Structural, Clone, Copy, Debug)]
pub enum ConvertError {
    /// The input is missing, undecodable, or its channel layout does not fit the mode.
    Input,
    /// Transparency keying is needed but every candidate key color occurs in the image.
    KeyColorExhausted,
    /// The output document could not be written.
    OutputWrite,
    /// A mask has so many set pixels that the engine could not number its components.
    TooManyRegions,
}

impl ConvertError {
    pub fn message(&self) -> (r: String) {
        match self {
            ConvertError::Input => "No image file found at specified input path".to_string(),
            ConvertError::KeyColorExhausted => "unable to find unused color in image to use as key".to_string(),
            ConvertError::OutputWrite => "Cannot create output file.".to_string(),
            ConvertError::TooManyRegions => "too many regions in image".to_string(),
        }
    }
}

} // verus!
