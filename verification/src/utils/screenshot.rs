//! Which screen holds an area, and how an image is handed to a client.

use crate::outside::{base64_encode, base64_text};
use crate::text::join2;
use vstd::prelude::*;

verus! {

/// Where a screen lies in the desktop, and how large it is.
#[derive(Debug, PartialEq, Eq, Clone, Copy, Structural)]
pub struct DisplayArea {
    pub x: i32,
    pub y: i32,
    pub width: u32,
    pub height: u32,
}

/// Whether the area of the given size at `(x, y)` lies within `display`.
pub open spec fn holds_area(display: DisplayArea, x: i32, y: i32, width: u32, height: u32) -> bool {
    &&& x >= display.x
    &&& y >= display.y
    &&& x + width <= display.x + display.width
    &&& y + height <= display.y + display.height
}

/// The image of a PNG file as a `data:` address.
pub open spec fn data_url(png: Seq<u8>) -> Seq<char> {
    "data:image/png;base64,"@ + base64_text(png)
}

/// Whether the area of the given size at `(x, y)` lies within `display`.
pub fn contains_area(display: &DisplayArea, x: i32, y: i32, width: u32, height: u32) -> (r: bool)
    ensures
        r == holds_area(*display, x, y, width, height),
{
    let right: i64 = x as i64 + width as i64;
    let bottom: i64 = y as i64 + height as i64;
    let display_right: i64 = display.x as i64 + display.width as i64;
    let display_bottom: i64 = display.y as i64 + display.height as i64;
    x >= display.x && y >= display.y && right <= display_right && bottom <= display_bottom
}

/// The first of `displays` that holds the area, if one does.
pub fn find_screen(displays: &Vec<DisplayArea>, x: i32, y: i32, width: u32, height: u32) -> (r:
    Option<usize>)
    ensures
        match r {
            Some(i) => i < displays@.len() && holds_area(displays@[i as int], x, y, width, height)
                && forall|j: int| 0 <= j < i ==> !holds_area(displays@[j], x, y, width, height),
            None => forall|j: int|
                0 <= j < displays@.len() ==> !holds_area(displays@[j], x, y, width, height),
        },
{
    let mut i: usize = 0;
    while i < displays.len()
        invariant
            i <= displays.len(),
            forall|j: int| 0 <= j < i ==> !holds_area(displays@[j], x, y, width, height),
        decreases displays.len() - i,
    {
        if contains_area(&displays[i], x, y, width, height) {
            return Some(i);
        }
        i += 1;
    }
    None
}

/// The standard base64 text of the bytes of a PNG file.
pub fn image_to_base64(png: &[u8]) -> (r: String)
    ensures
        r@ == base64_text(png@),
{
    base64_encode(png)
}

/// The image of a PNG file as a `data:` address.
pub fn image_data_url(png: &[u8]) -> (r: String)
    ensures
        r@ == data_url(png@),
{
    let encoded = base64_encode(png);
    join2("data:image/png;base64,", encoded.as_str())
}

} // verus!
