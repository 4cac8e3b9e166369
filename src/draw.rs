use vstd::prelude::*;

verus! {

/// Side of one grid cell in surface units.
pub const BLOCK_SIZE: u32 = 25;

/// A grid coordinate in whole surface units: the product with the block
/// size, clamped to the range of `u32`.
pub open spec fn coord_u32_spec(game_coord: int) -> int {
    if game_coord <= 0 {
        0
    } else if game_coord * 25 > u32::MAX {
        u32::MAX as int
    } else {
        game_coord * 25
    }
}

pub fn to_coord_u32(game_coord: i32) -> (r: u32)
    ensures
        r == coord_u32_spec(game_coord as int),
{
    if game_coord <= 0 {
        0
    } else {
        let c: u64 = game_coord as u64;
        assert(c * 25 <= 25 * 0x7fff_ffff) by (nonlinear_arith)
            requires c <= 0x7fff_ffff;
        let v: u64 = c * (BLOCK_SIZE as u64);
        if v > u32::MAX as u64 {
            u32::MAX
        } else {
            v as u32
        }
    }
}

/// What a rectangle stands for; the surface picks its colour.
#[derive(Clone, Copy, PartialEq, Eq, Structural, Debug)]
pub enum Paint {
    Snake,
    Food,
    Border,
    GameOver,
}

/// A rectangle on the grid: its top-left cell and its size in cells.
#[derive(Clone, Copy, PartialEq, Eq, Structural, Debug)]
pub struct Shape {
    pub paint: Paint,
    pub x: i32,
    pub y: i32,
    pub width: i32,
    pub height: i32,
}

pub open spec fn block_shape(paint: Paint, x: i32, y: i32) -> Shape {
    Shape { paint: paint, x: x, y: y, width: 1, height: 1 }
}

} // verus!
