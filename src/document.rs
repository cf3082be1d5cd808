use vstd::prelude::*;
use visioncortex::CompoundPath;

verus! {

/// The fill color of a path.
#[derive(PartialEq, Eq, Structural, Clone, Copy, Debug)]
pub struct FillColor {
    pub r: u8,
    pub g: u8,
    pub b: u8,
    pub a: u8,
}

/// One painted path: its geometry, its fill, and the region it was traced from.
pub struct PathEntry {
    pub path: CompoundPath,
    pub color: FillColor,
    /// The engine's index of the source region.
    pub region: usize,
}

/// A sized vector document; entries are in paint order, the first at the bottom.
pub struct VectorDocument {
    pub width: usize,
    pub height: usize,
    pub precision: Option<u32>,
    pub entries: Vec<PathEntry>,
}

impl VectorDocument {
    /// The source regions of the entries, in paint order.
    pub open spec fn regions(&self) -> Seq<usize> {
        self.entries@.map_values(|e: PathEntry| e.region)
    }

    /// The fills of the entries, in paint order.
    pub open spec fn fills(&self) -> Seq<FillColor> {
        self.entries@.map_values(|e: PathEntry| e.color)
    }

    pub fn new(width: usize, height: usize, precision: Option<u32>) -> (r: VectorDocument)
        ensures
            r.width == width,
            r.height == height,
            r.precision == precision,
            r.entries@.len() == 0,
    {
        VectorDocument { width, height, precision, entries: Vec::new() }
    }

    /// Paints `path` on top of everything added so far.
    pub fn add_path(&mut self, path: CompoundPath, color: FillColor, region: usize)
        ensures
            final(self).width == old(self).width,
            final(self).height == old(self).height,
            final(self).precision == old(self).precision,
            final(self).regions() == old(self).regions().push(region),
            final(self).fills() == old(self).fills().push(color),
            final(self).entries@ == old(self).entries@.push(PathEntry { path, color, region }),
    {
        self.entries.push(PathEntry { path, color, region });
        assert(self.regions() =~= old(self).regions().push(region));
        assert(self.fills() =~= old(self).fills().push(color));
    }

    pub fn len(&self) -> (r: usize)
        ensures
            r == self.entries@.len(),
    {
        self.entries.len()
    }
}

} // verus!
