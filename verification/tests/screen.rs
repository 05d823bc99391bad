use gameboy::screen::{shade_color, texture_data};

#[test]
fn each_shade_has_its_colour() {
    assert_eq!(shade_color(0), (155, 188, 15));
    assert_eq!(shade_color(1), (139, 172, 15));
    assert_eq!(shade_color(2), (48, 98, 48));
    assert_eq!(shade_color(3), (15, 56, 15));
}

#[test]
fn the_texture_has_three_bytes_for_each_pixel() {
    let mut buffer = [0u8; 23040];
    buffer[1] = 1;
    buffer[2] = 2;
    buffer[23039] = 3;
    let texture = texture_data(&buffer);
    assert_eq!(texture.len(), 69120);
    assert_eq!(&texture[0..9], &[155, 188, 15, 139, 172, 15, 48, 98, 48]);
    assert_eq!(&texture[69117..], &[15, 56, 15]);
}
