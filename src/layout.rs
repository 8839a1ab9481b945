use vstd::prelude::*;

verus! {

/// A rectangle of terminal cells.
#[derive(Debug, Clone, Copy, PartialEq, Eq, Structural)]
pub struct Area {
    pub x: u16,
    pub y: u16,
    pub width: u16,
    pub height: u16,
}

/// The smaller of two numbers.
pub open spec fn min_nat(a: nat, b: nat) -> nat {
    if a <= b { a } else { b }
}

/// Where text of `lines` lines goes in a frame of `width` by `height` cells:
/// the full width, vertically centred, cut to the frame's height.
pub fn text_area(width: u16, height: u16, lines: usize) -> (r: Area)
    ensures
        r.x == 0,
        r.width == width,
        r.height == min_nat(lines as nat, height as nat),
        r.y == (height - r.height) / 2,
        r.y + r.height <= height,
{
    let h: u16 = if lines < height as usize { lines as u16 } else { height };
    let y: u16 = (height - h) / 2;
    Area { x: 0, y, width, height: h }
}

/// The size that ASCII art is converted to for a terminal of `columns` by
/// `rows` cells: twice the smaller side; `None` where that is zero.
pub fn ascii_target_size(columns: u16, rows: u16) -> (r: Option<u32>)
    ensures
        min_nat(columns as nat, rows as nat) == 0 ==> r is None,
        min_nat(columns as nat, rows as nat) > 0 ==> r == Some(
            (2 * min_nat(columns as nat, rows as nat)) as u32,
        ),
{
    let m: u16 = if columns <= rows { columns } else { rows };
    if m == 0 {
        None
    } else {
        Some(m as u32 * 2)
    }
}

} // verus!
