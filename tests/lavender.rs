use named_colour::{Lavender, Prefix};

#[test]
fn lavender_rgb_strings() {
    let cases = [
        (Lavender::SlateGray, "rgb(112,128,144)"),
        (Lavender::LightSlateGray, "rgb(119,136,153)"),
        (Lavender::LightSteelBlue, "rgb(176,196,222)"),
        (Lavender::Lavender, "rgb(230,230,250)"),
        (Lavender::AliceBlue, "rgb(240,248,255)"),
    ];
    for (colour, expected) in cases {
        assert_eq!(expected, colour.to_rgb().to_string());
    }
}

#[test]
fn lavender_hex_triplets() {
    let cases = [
        (Lavender::SlateGray, "708090"),
        (Lavender::LightSlateGray, "778899"),
        (Lavender::LightSteelBlue, "B0C4DE"),
        (Lavender::Lavender, "E6E6FA"),
        (Lavender::AliceBlue, "F0F8FF"),
    ];
    for (colour, expected) in cases {
        assert_eq!(expected, colour.to_hex_triplet(Prefix::Bare));
        assert_eq!(format!("#{}", expected), colour.to_hex_triplet(Prefix::Hash));
        assert_eq!(format!("#{}", expected), colour.to_string());
    }
}
