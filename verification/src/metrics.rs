//! The size of one cell in device units.

use vstd::prelude::*;

verus! {

/// What the font in use makes of a cell: the width and height of a
/// character, and the space added between lines.
#[derive(Clone, Copy, Debug, PartialEq, Eq, Structural)]
pub struct Metrics {
    pub charwidth: u32,
    pub charheight: u32,
    pub linespace: u32,
}

impl Metrics {
    /// Metrics of a cell without extent, as they stand before a font was
    /// measured.
    pub fn new() -> (metrics: Metrics)
        ensures
            metrics == (Metrics { charwidth: 0, charheight: 0, linespace: 0 }),
    {
        Metrics { charwidth: 0, charheight: 0, linespace: 0 }
    }

    /// The width of a cell.
    pub open spec fn spec_width(&self) -> u64 {
        self.charwidth as u64
    }

    /// The height of a cell: a character's height and the line space.
    pub open spec fn spec_height(&self) -> u64 {
        (self.charheight + self.linespace) as u64
    }

    #[verifier::when_used_as_spec(spec_width)]
    pub fn width(&self) -> (width: u64)
        ensures
            width == self.spec_width(),
            width == self.charwidth,
    {
        self.charwidth as u64
    }

    #[verifier::when_used_as_spec(spec_height)]
    pub fn height(&self) -> (height: u64)
        ensures
            height == self.spec_height(),
            height == self.charheight + self.linespace,
    {
        self.charheight as u64 + self.linespace as u64
    }
}


/// How many cells of `unit` device units fit into `extent` device units,
/// where a cell has an extent.
pub open spec fn cells_in(extent: u64, unit: u64) -> Option<u64> {
    if unit == 0 {
        None
    } else {
        Some(extent / unit)
    }
}

impl Metrics {
    /// How many columns fit into a width in device units.
    pub fn columns_in(&self, width: u64) -> (columns: Option<u64>)
        ensures
            columns == cells_in(width, self.width()),
    {
        if self.charwidth == 0 {
            None
        } else {
            Some(width / self.width())
        }
    }

    /// How many rows fit into a height in device units.
    pub fn rows_in(&self, height: u64) -> (rows: Option<u64>)
        ensures
            rows == cells_in(height, self.height()),
    {
        let unit = self.height();
        if unit == 0 {
            None
        } else {
            Some(height / unit)
        }
    }
}

} // verus!
