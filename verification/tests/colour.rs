use badges::Colour;
use badges::colours_for_background;
use badges::scale8;

#[test]
fn test_from_hex() {
    assert_eq!(
        Colour::from_hex("#000000"),
        Some(Colour { r: 0, g: 0, b: 0 })
    );
    assert_eq!(Colour::from_hex("#ffffff"), Some(Colour::from_rgb(255, 255, 255)));
    assert_eq!(
        Colour::from_hex("#ff0000"),
        Some(Colour { r: 255, g: 0, b: 0 })
    );
    assert_eq!(
        Colour::from_hex("#00ff00"),
        Some(Colour { r: 0, g: 255, b: 0 })
    );
    assert_eq!(
        Colour::from_hex("#0000ff"),
        Some(Colour { r: 0, g: 0, b: 255 })
    );
    assert_eq!(Colour::from_hex("#000"), Some(Colour { r: 0, g: 0, b: 0 }));
    assert_eq!(Colour::from_hex("#fff"), Some(Colour::from_rgb(255, 255, 255)));
    assert_eq!(
        Colour::from_hex("#f00"),
        Some(Colour { r: 255, g: 0, b: 0 })
    );
    assert_eq!(
        Colour::from_hex("#0f0"),
        Some(Colour { r: 0, g: 255, b: 0 })
    );
    assert_eq!(
        Colour::from_hex("#00f"),
        Some(Colour { r: 0, g: 0, b: 255 })
    );
    assert_eq!(Colour::from_hex("#0000000"), None);
}

#[test]
fn test_from_hex_rejects_malformed() {
    assert_eq!(Colour::from_hex(""), None);
    assert_eq!(Colour::from_hex("#"), None);
    assert_eq!(Colour::from_hex("000000"), None);
    assert_eq!(Colour::from_hex("#00000g"), None);
    assert_eq!(Colour::from_hex("#0g0"), None);
    assert_eq!(Colour::from_hex("#ab"), None);
    assert_eq!(Colour::from_hex("x000000"), None);
}

#[test]
fn test_from_hex_mixed_case() {
    assert_eq!(
        Colour::from_hex("#AbCdEf"),
        Some(Colour { r: 0xab, g: 0xcd, b: 0xef })
    );
    assert_eq!(Colour::from_hex("#F0a"), Some(Colour { r: 255, g: 0, b: 0xaa }));
}

#[test]
fn test_from_colour_code() {
    assert_eq!(Colour::from_colour_code(0x44cc11), Colour { r: 0x44, g: 0xcc, b: 0x11 });
    assert_eq!(Colour::from_colour_code(0x000000), Colour { r: 0, g: 0, b: 0 });
    assert_eq!(Colour::from_colour_code(0xffffff), Colour { r: 255, g: 255, b: 255 });
}

#[test]
fn test_scale8() {
    assert_eq!(scale8(255, 255), 255);
    assert_eq!(scale8(0, 255), 0);
    assert_eq!(scale8(128, 127), 64);
    assert_eq!(scale8(255, 54), 54);
    assert_eq!(scale8(255, 183), 183);
    assert_eq!(scale8(255, 18), 18);
}

#[test]
fn test_brightness_values() {
    assert_eq!(Colour::from_rgb(0, 0, 0).brightness(), 0);
    assert_eq!(Colour::from_rgb(255, 255, 255).brightness(), 255);
    // the two sides of the dark/light boundary used below
    assert_eq!(Colour::from_rgb(0, 245, 0).brightness(), 176);
    assert_eq!(Colour::from_rgb(0, 247, 0).brightness(), 177);
}

#[test]
fn test_colours_for_background_boundary() {
    // brightness exactly at the bound maps to the dark-background pair
    let at_bound = Colour::from_rgb(0, 245, 0);
    assert_eq!(at_bound.brightness(), 176);
    let (text, shadow) = colours_for_background(at_bound);
    assert_eq!(text, Colour::from_rgb(255, 255, 255));
    assert_eq!(shadow, Colour::from_rgb(1, 1, 1));

    // one unit above maps to the light-background pair
    let above_bound = Colour::from_rgb(0, 247, 0);
    assert_eq!(above_bound.brightness(), 177);
    let (text, shadow) = colours_for_background(above_bound);
    assert_eq!(text, Colour::from_rgb(0x33, 0x33, 0x33));
    assert_eq!(shadow, Colour::from_rgb(0xcc, 0xcc, 0xcc));
}

#[test]
fn test_to_hex_string() {
    assert_eq!(Colour::from_rgb(255, 255, 255).to_hex_string(), "#ffffff");
    assert_eq!(Colour::from_rgb(0, 0, 0).to_hex_string(), "#000000");
    assert_eq!(Colour::from_rgb(0x44, 0xcc, 0x11).to_hex_string(), "#44cc11");
    assert_eq!(Colour::from_rgb(0xab, 0x01, 0xef).to_hex_string(), "#ab01ef");
}

#[test]
fn test_from_tuple_and_array() {
    assert_eq!(Colour::from((1u8, 2u8, 3u8)), Colour { r: 1, g: 2, b: 3 });
    assert_eq!(Colour::from([4u8, 5u8, 6u8]), Colour { r: 4, g: 5, b: 6 });
}
