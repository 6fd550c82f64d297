use std::str::FromStr;

use named_colour::{Yellow, ExtendedColour, Prefix};

#[test]
fn yellow_rgb_strings() {
    let cases = [
        (Yellow::Gold, "rgb(255,215,0)"),
        (Yellow::DarkGoldenrod, "rgb(184,134,11)"),
        (Yellow::Goldenrod, "rgb(218,165,32)"),
        (Yellow::PaleGoldenrod, "rgb(238,232,170)"),
        (Yellow::DarkKhaki, "rgb(189,183,107)"),
        (Yellow::Khaki, "rgb(240,230,140)"),
        (Yellow::Yellow, "rgb(255,255,0)"),
        (Yellow::YellowGreen, "rgb(154,205,50)"),
        (Yellow::PeachPuff, "rgb(255,218,185)"),
        (Yellow::Moccasin, "rgb(255,228,181)"),
        (Yellow::PapayaWhip, "rgb(255,239,213)"),
        (Yellow::LemonChiffon, "rgb(255,250,205)"),
        (Yellow::LightGoldenrodYellow, "rgb(250,250,210)"),
        (Yellow::LightYellow, "rgb(255,255,224)"),
    ];
    for (colour, expected) in cases {
        assert_eq!(expected, colour.to_rgb().to_string());
    }
}

#[test]
fn yellow_hex_triplets() {
    let cases = [
        (Yellow::Gold, "FFD700"),
        (Yellow::DarkGoldenrod, "B8860B"),
        (Yellow::Goldenrod, "DAA520"),
        (Yellow::PaleGoldenrod, "EEE8AA"),
        (Yellow::DarkKhaki, "BDB76B"),
        (Yellow::Khaki, "F0E68C"),
        (Yellow::Yellow, "FFFF00"),
        (Yellow::YellowGreen, "9ACD32"),
        (Yellow::PeachPuff, "FFDAB9"),
        (Yellow::Moccasin, "FFE4B5"),
        (Yellow::PapayaWhip, "FFEFD5"),
        (Yellow::LemonChiffon, "FFFACD"),
        (Yellow::LightGoldenrodYellow, "FAFAD2"),
        (Yellow::LightYellow, "FFFFE0"),
    ];
    for (colour, expected) in cases {
        assert_eq!(expected, colour.to_hex_triplet(Prefix::Bare));
        assert_eq!(format!("#{}", expected), colour.to_hex_triplet(Prefix::Hash));
        assert_eq!(format!("#{}", expected), colour.to_string());
    }
}

#[test]
fn yellow_from_str_cases() {
    let cases = [
        ("#ffd700", Yellow::Gold),
        ("ffd700", Yellow::Gold),
        ("Gold", Yellow::Gold),
        ("#b8860b", Yellow::DarkGoldenrod),
        ("b8860b", Yellow::DarkGoldenrod),
        ("DarkGoldenRod", Yellow::DarkGoldenrod),
        ("GoldenRod", Yellow::Goldenrod),
        ("#eee8aa", Yellow::PaleGoldenrod),
        ("eee8aa", Yellow::PaleGoldenrod),
        ("PaleGoldenRod", Yellow::PaleGoldenrod),
        ("#bdb76b", Yellow::DarkKhaki),
        ("bdb76b", Yellow::DarkKhaki),
        ("DarkKhaki", Yellow::DarkKhaki),
        ("#f0e68c", Yellow::Khaki),
        ("f0e68c", Yellow::Khaki),
        ("Khaki", Yellow::Khaki),
        ("#ffff00", Yellow::Yellow),
        ("ffff00", Yellow::Yellow),
        ("Yellow", Yellow::Yellow),
        ("#9acd32", Yellow::YellowGreen),
        ("9acd32", Yellow::YellowGreen),
        ("YellowGreen", Yellow::YellowGreen),
        ("#ffdab9", Yellow::PeachPuff),
        ("ffdab9", Yellow::PeachPuff),
        ("PeachPuff", Yellow::PeachPuff),
        ("#ffe4b5", Yellow::Moccasin),
        ("ffe4b5", Yellow::Moccasin),
        ("Moccasin", Yellow::Moccasin),
        ("#ffefd5", Yellow::PapayaWhip),
        ("ffefd5", Yellow::PapayaWhip),
        ("PapayaWhip", Yellow::PapayaWhip),
        ("#fffacd", Yellow::LemonChiffon),
        ("fffacd", Yellow::LemonChiffon),
        ("LemonChiffon", Yellow::LemonChiffon),
        ("#fafad2", Yellow::LightGoldenrodYellow),
        ("fafad2", Yellow::LightGoldenrodYellow),
        ("LightGoldenrodYellow", Yellow::LightGoldenrodYellow),
        ("#ffffe0", Yellow::LightYellow),
        ("ffffe0", Yellow::LightYellow),
        ("LightYellow", Yellow::LightYellow),
    ];
    for (input, expected) in cases {
        assert_eq!(expected, Yellow::from_str(input).unwrap());
        assert_eq!(Some(expected), Yellow::parse(input));
    }
}

#[test]
fn yellow_name_colour_cases() {
    let cases = [
        ("#ffd700", Some(Yellow::Gold)),
        ("ffd700", Some(Yellow::Gold)),
        ("Gold", Some(Yellow::Gold)),
        ("#b8860b", Some(Yellow::DarkGoldenrod)),
        ("b8860b", Some(Yellow::DarkGoldenrod)),
        ("DarkGoldenRod", Some(Yellow::DarkGoldenrod)),
        ("GoldenRod", Some(Yellow::Goldenrod)),
        ("#eee8aa", Some(Yellow::PaleGoldenrod)),
        ("eee8aa", Some(Yellow::PaleGoldenrod)),
        ("PaleGoldenRod", Some(Yellow::PaleGoldenrod)),
        ("#bdb76b", Some(Yellow::DarkKhaki)),
        ("bdb76b", Some(Yellow::DarkKhaki)),
        ("DarkKhaki", Some(Yellow::DarkKhaki)),
        ("#f0e68c", Some(Yellow::Khaki)),
        ("f0e68c", Some(Yellow::Khaki)),
        ("Khaki", Some(Yellow::Khaki)),
        ("#ffff00", Some(Yellow::Yellow)),
        ("ffff00", Some(Yellow::Yellow)),
        ("Yellow", Some(Yellow::Yellow)),
        ("#9acd32", Some(Yellow::YellowGreen)),
        ("9acd32", Some(Yellow::YellowGreen)),
        ("YellowGreen", Some(Yellow::YellowGreen)),
        ("#ffdab9", Some(Yellow::PeachPuff)),
        ("ffdab9", Some(Yellow::PeachPuff)),
        ("PeachPuff", Some(Yellow::PeachPuff)),
        ("#ffe4b5", Some(Yellow::Moccasin)),
        ("ffe4b5", Some(Yellow::Moccasin)),
        ("Moccasin", Some(Yellow::Moccasin)),
        ("#ffefd5", Some(Yellow::PapayaWhip)),
        ("ffefd5", Some(Yellow::PapayaWhip)),
        ("PapayaWhip", Some(Yellow::PapayaWhip)),
        ("#fffacd", Some(Yellow::LemonChiffon)),
        ("fffacd", Some(Yellow::LemonChiffon)),
        ("LemonChiffon", Some(Yellow::LemonChiffon)),
        ("#fafad2", Some(Yellow::LightGoldenrodYellow)),
        ("fafad2", Some(Yellow::LightGoldenrodYellow)),
        ("LightGoldenrodYellow", Some(Yellow::LightGoldenrodYellow)),
        ("#ffffe0", Some(Yellow::LightYellow)),
        ("ffffe0", Some(Yellow::LightYellow)),
        ("LightYellow", Some(Yellow::LightYellow)),
        ("012345", None),
    ];
    for (input, expected) in cases {
        assert_eq!(expected, Yellow::name_colour(input));
    }
}
