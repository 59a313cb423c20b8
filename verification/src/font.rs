//! Letters made of rectangles.

use vstd::prelude::*;

verus! {

/// A filled rectangle: its top left corner, and its size.
#[derive(Clone, Copy, Debug, PartialEq, Eq, Structural)]
pub struct Rect {
    pub x: i32,
    pub y: i32,
    pub width: u32,
    pub height: u32,
}

/// Whether the strokes of size `w` by `h` with gaps of `ws` by `hs` make a
/// letter whose sizes fit sixteen bits.
pub open spec fn fits(w: u16, h: u16, ws: u16, hs: u16) -> bool {
    w * 3 + ws * 2 <= u16::MAX && h * 2 + hs * 2 <= u16::MAX
}

/// The rectangles of the letter `c`, from the top left corner of the letter.
/// The letter is three strokes wide and high, with gaps between the strokes.
/// Only the digit zero has a shape so far: a bar on top and two bars down
/// the sides.
pub open spec fn letter_shape(c: char, w: u16, h: u16, ws: u16, hs: u16) -> Seq<Rect> {
    if c == '0' {
        seq![
            Rect { x: 0, y: 0, width: (w * 3 + ws * 2) as u32, height: h as u32 },
            Rect { x: 0, y: h as i32, width: w as u32, height: (h * 2 + hs * 2) as u32 },
            Rect {
                x: (w * 2 + ws * 2) as i32,
                y: h as i32,
                width: w as u32,
                height: (h * 2 + hs * 2) as u32,
            },
        ]
    } else {
        Seq::empty()
    }
}

fn rect(x: u16, y: u16, w: u16, h: u16) -> (rect: Rect)
    ensures
        rect == (Rect { x: x as i32, y: y as i32, width: w as u32, height: h as u32 }),
{
    Rect { x: x as i32, y: y as i32, width: w as u32, height: h as u32 }
}

/// The rectangles that draw the letter `c` with strokes of the size `stroke`
/// and gaps of the size `gap`, each given as width and height.
pub fn letter(c: char, stroke: (u16, u16), gap: (u16, u16)) -> (rects: Vec<Rect>)
    requires
        c == '0' ==> fits(stroke.0, stroke.1, gap.0, gap.1),
    ensures
        rects@ == letter_shape(c, stroke.0, stroke.1, gap.0, gap.1),
{
    let (w, h) = stroke;
    let (ws, hs) = gap;
    let mut rects: Vec<Rect> = Vec::new();
    match c {
        '0' => {
            rects.push(rect(0, 0, w * 3 + ws * 2, h));
            rects.push(rect(0, h, w, h * 2 + hs * 2));
            rects.push(rect(w * 2 + ws * 2, h, w, h * 2 + hs * 2));
            assert(rects@ =~= letter_shape(c, w, h, ws, hs));
        },
        _ => {
            assert(rects@ =~= letter_shape(c, w, h, ws, hs));
        },
    }

    rects
}

} // verus!
