//! Positions in device units.

use vstd::prelude::*;

verus! {

/// A point on the drawing surface, in device units.
#[derive(Clone, Copy, Debug, PartialEq, Eq, Structural)]
pub struct Position {
    pub x: i64,
    pub y: i64,
}

impl Position {
    pub fn new(x: i64, y: i64) -> (pos: Position)
        ensures
            pos == (Position { x, y }),
    {
        Position { x, y }
    }
}

/// The coordinate that lies `cells` cells of `unit` device units each
/// behind `origin`.
pub open spec fn shifted(origin: int, cells: int, unit: int) -> int {
    origin + cells * unit
}

/// Whether a coordinate can be held.
pub open spec fn holdable(at: int) -> bool {
    i64::MIN <= at <= i64::MAX
}

/// The largest cell count, in either direction, that `shift` takes.
pub open spec fn cell_limit() -> int {
    0x1_0000_0000_0000_0000_0000
}

/// The largest cell size that `shift` takes.
pub open spec fn unit_limit() -> int {
    0x1_0000_0000_00
}

/// Computes `shifted`, where the result can be held.
pub fn shift(origin: i64, cells: i128, unit: u64) -> (at: Option<i64>)
    requires
        -cell_limit() <= cells <= cell_limit(),
        unit <= unit_limit(),
    ensures
        holdable(shifted(origin as int, cells as int, unit as int)) ==> at == Some(
            shifted(origin as int, cells as int, unit as int) as i64,
        ),
        !holdable(shifted(origin as int, cells as int, unit as int)) ==> at is None,
{
    let span: i128 = unit as i128;
    assert(-0x100_0000_0000_0000_0000_0000_0000_0000 <= cells * span
        <= 0x100_0000_0000_0000_0000_0000_0000_0000) by (nonlinear_arith)
        requires
            -0x1_0000_0000_0000_0000_0000 <= cells <= 0x1_0000_0000_0000_0000_0000,
            0 <= span <= 0x1_0000_0000_00,
    ;
    let at: i128 = origin as i128 + cells * span;
    if at < i64::MIN as i128 || at > i64::MAX as i128 {
        None
    } else {
        Some(at as i64)
    }
}

} // verus!
