use vstd::prelude::*;
use crate::text::chars_of;
use crate::parse::{split, split_chars, trim, trim_chars, parse_i32, parse_i32_chars};

verus! {

/// A rectangle of the screen, in pixels: its top left corner and its size.
#[derive(Clone, Copy, Debug, PartialEq, Eq, Structural)]
pub struct Area {
    pub x: i32,
    pub y: i32,
    pub width: i32,
    pub height: i32,
}

/// A display's place and size, in physical pixels.
#[derive(Clone, Copy, Debug, PartialEq, Eq, Structural)]
pub struct Position {
    pub x: i32,
    pub y: i32,
    pub width: u32,
    pub height: u32,
}

/// The area that a text "x,y,width,height" describes: the first four pieces
/// between commas, each an `i32` with white space around it allowed; pieces
/// after the fourth are not read. `None` when there are fewer than four
/// pieces or one of the four is not an `i32`.
pub open spec fn area_of(s: Seq<char>) -> Option<Area> {
    let parts = split(s, ',');
    if parts.len() < 4 {
        None
    } else {
        match (parse_i32(trim(parts[0])), parse_i32(trim(parts[1])), parse_i32(trim(parts[2])), parse_i32(trim(parts[3]))) {
            (Some(x), Some(y), Some(w), Some(h)) => Some(Area { x: x, y: y, width: w, height: h }),
            _ => None,
        }
    }
}

fn read_piece(parts: &Vec<Vec<char>>, i: usize) -> (r: Option<i32>)
    requires
        i < parts@.len(),
    ensures
        r == parse_i32(trim(parts@[i as int]@)),
{
    let t = trim_chars(&parts[i]);
    parse_i32_chars(&t)
}

/// Reads the area that a text "x,y,width,height" describes.
pub fn parse_area(s: &str) -> (a: Option<Area>)
    ensures
        a == area_of(s@),
{
    let cs = chars_of(s);
    let parts = split_chars(&cs, ',');
    if parts.len() < 4 {
        return None;
    }
    let x = read_piece(&parts, 0);
    let y = read_piece(&parts, 1);
    let w = read_piece(&parts, 2);
    let h = read_piece(&parts, 3);
    match (x, y, w, h) {
        (Some(x), Some(y), Some(w), Some(h)) => Some(Area { x, y, width: w, height: h }),
        _ => None,
    }
}

/// Reads an area that is known to be well formed: a custom capture or
/// recording is only started on a text "x,y,width,height" whose four pieces
/// are integers.
pub fn read_area(s: &str) -> (a: Area)
    requires
        area_of(s@) is Some,
    ensures
        area_of(s@) == Some(a),
{
    match parse_area(s) {
        Some(a) => a,
        None => Area { x: 0, y: 0, width: 0, height: 0 },
    }
}

} // verus!
