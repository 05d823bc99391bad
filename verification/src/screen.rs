//! The picture as colours for the host to show.

use vstd::prelude::*;
use crate::ppu::{is_picture, PIXELS};

verus! {

/// The number of bytes of the picture as a texture: three for each pixel.
pub const TEXTURE_BYTES: usize = 69120;

/// The colour of each of the four shades, as red, green and blue, from the
/// lightest to the darkest.
pub open spec fn palette(shade: u8) -> (u8, u8, u8) {
    if shade == 0 {
        (155, 188, 15)
    } else if shade == 1 {
        (139, 172, 15)
    } else if shade == 2 {
        (48, 98, 48)
    } else {
        (15, 56, 15)
    }
}

/// The colour of a shade.
pub fn shade_color(shade: u8) -> (color: (u8, u8, u8))
    requires
        shade <= 3,
    ensures
        color == palette(shade),
{
    match shade {
        0 => (155, 188, 15),
        1 => (139, 172, 15),
        2 => (48, 98, 48),
        _ => (15, 56, 15),
    }
}

/// Whether `texture` holds, for each pixel of `image`, the red, the green and
/// the blue of its shade, one pixel after the other.
pub open spec fn is_texture_of(texture: Seq<u8>, image: Seq<u8>) -> bool {
    &&& texture.len() == 3 * image.len()
    &&& forall|i: int|
        #![trigger image[i]]
        0 <= i < image.len() ==> (texture[3 * i], texture[3 * i + 1], texture[3 * i + 2])
            == palette(image[i])
}

/// The picture as a texture of 24-bit colours.
pub fn texture_data(buffer: &[u8; 23040]) -> (texture: Vec<u8>)
    requires
        is_picture(buffer@),
    ensures
        is_texture_of(texture@, buffer@),
        texture@.len() == TEXTURE_BYTES,
{
    let mut texture: Vec<u8> = Vec::new();
    let mut index: usize = 0;
    while index < PIXELS
        invariant
            index <= PIXELS,
            is_picture(buffer@),
            texture@.len() == 3 * index,
            forall|i: int|
                #![trigger buffer@[i]]
                0 <= i < index ==> (texture@[3 * i], texture@[3 * i + 1], texture@[3 * i + 2])
                    == palette(buffer@[i]),
        decreases PIXELS - index,
    {
        let (r, g, b) = shade_color(buffer[index]);
        texture.push(r);
        texture.push(g);
        texture.push(b);
        index = index + 1;
    }
    texture
}

} // verus!
