use named_colour::{ColourRgb, ToHex};

#[test]
fn print_valid_hex_string() {
    assert_eq!("#CCCCCC", &ColourRgb::new(204, 204, 204).as_hex());
    let colour = ColourRgb::new(12, 24, 48);
    assert_eq!("#0C1830", colour.as_hex());
    let colour = ColourRgb::new(12, 4, 8);
    assert_eq!("#0C0408", colour.as_hex());
}

#[test]
fn test_to_hex_string() {
    let colour = ColourRgb::new(12, 24, 48);
    assert_eq!("0c1830", colour.to_hex_string());
    let colour = ColourRgb::new(12, 4, 8);
    assert_eq!("0c0408", colour.to_hex_string());
}

#[test]
fn print_valid_hex_string_for_rgb_u8() {
    assert_eq!("#CCCCCC", &ToHex::as_hex(&ColourRgb::new(204, 204, 204)));
    let colour = ColourRgb::new(12, 24, 48);
    assert_eq!("#0C1830", ToHex::as_hex(&colour));
    let colour = ColourRgb::new(12, 4, 8);
    assert_eq!("#0C0408", ToHex::as_hex(&colour));
}

#[test]
fn test_to_hex_string_for_rgb_u8() {
    let colour = ColourRgb::new(12, 24, 48);
    assert_eq!("0c1830", ToHex::to_hex_string(&colour));
    let colour = ColourRgb::new(12, 4, 8);
    assert_eq!("0c0408", ToHex::to_hex_string(&colour));
}

#[test]
fn decimal_renderings() {
    let colour = ColourRgb::new(0, 9, 255);
    assert_eq!("rgb(0,9,255)", colour.to_string());
    assert_eq!("(0,9,255)", colour.to_tuple_string());
    let colour = ColourRgb::new(10, 99, 100);
    assert_eq!("rgb(10,99,100)", colour.to_string());
}

#[test]
fn channels_are_kept() {
    let colour = ColourRgb::new(1, 2, 3);
    assert_eq!((1, 2, 3), (colour.red, colour.green, colour.blue));
}
