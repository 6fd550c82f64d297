use std::str::FromStr;

use named_colour::{Blue, ExtendedColour, Prefix};

#[test]
fn blue_rgb_strings() {
    let cases = [
        (Blue::PowderBlue, "rgb(176,224,230)"),
        (Blue::CadetBlue, "rgb(95,158,160)"),
        (Blue::SteelBlue, "rgb(70,130,180)"),
        (Blue::CornflowerBlue, "rgb(100,149,237)"),
        (Blue::DeepSkyBlue, "rgb(0,191,255)"),
        (Blue::DodgerBlue, "rgb(30,144,255)"),
        (Blue::LightBlue, "rgb(173,216,230)"),
        (Blue::SkyBlue, "rgb(135,206,235)"),
        (Blue::LightSteelBlue, "rgb(176,196,222)"),
        (Blue::LightSkyBlue, "rgb(135,206,250)"),
        (Blue::MidnightBlue, "rgb(25,25,112)"),
        (Blue::Navy, "rgb(0,0,128)"),
        (Blue::DarkBlue, "rgb(0,0,139)"),
        (Blue::MediumBlue, "rgb(0,0,205)"),
        (Blue::Blue, "rgb(0,0,255)"),
        (Blue::RoyalBlue, "rgb(65,105,225)"),
        (Blue::Azure, "rgb(240,255,255)"),
    ];
    for (colour, expected) in cases {
        assert_eq!(expected, colour.to_rgb().to_string());
    }
}

#[test]
fn blue_hex_triplets() {
    let cases = [
        (Blue::PowderBlue, "B0E0E6"),
        (Blue::CadetBlue, "5F9EA0"),
        (Blue::SteelBlue, "4682B4"),
        (Blue::CornflowerBlue, "6495ED"),
        (Blue::DeepSkyBlue, "00BFFF"),
        (Blue::DodgerBlue, "1E90FF"),
        (Blue::LightBlue, "ADD8E6"),
        (Blue::SkyBlue, "87CEEB"),
        (Blue::LightSteelBlue, "B0C4DE"),
        (Blue::LightSkyBlue, "87CEFA"),
        (Blue::MidnightBlue, "191970"),
        (Blue::Navy, "000080"),
        (Blue::DarkBlue, "00008B"),
        (Blue::MediumBlue, "0000CD"),
        (Blue::Blue, "0000FF"),
        (Blue::RoyalBlue, "4169E1"),
        (Blue::Azure, "F0FFFF"),
    ];
    for (colour, expected) in cases {
        assert_eq!(expected, colour.to_hex_triplet(Prefix::Bare));
        assert_eq!(format!("#{}", expected), colour.to_hex_triplet(Prefix::Hash));
        assert_eq!(format!("#{}", expected), colour.to_string());
    }
}

#[test]
fn blue_from_str_cases() {
    let cases = [
        ("#b0e0e6", Blue::PowderBlue),
        ("b0e0e6", Blue::PowderBlue),
        ("powderblue", Blue::PowderBlue),
        ("#5f9ea0", Blue::CadetBlue),
        ("5f9ea0", Blue::CadetBlue),
        ("cadetblue", Blue::CadetBlue),
        ("#4682b4", Blue::SteelBlue),
        ("4682b4", Blue::SteelBlue),
        ("steelblue", Blue::SteelBlue),
        ("#6495ed", Blue::CornflowerBlue),
        ("6495ed", Blue::CornflowerBlue),
        ("cornflowerblue", Blue::CornflowerBlue),
        ("#00bfff", Blue::DeepSkyBlue),
        ("00bfff", Blue::DeepSkyBlue),
        ("deepskyblue", Blue::DeepSkyBlue),
        ("#1e90ff", Blue::DodgerBlue),
        ("1e90ff", Blue::DodgerBlue),
        ("dodgerblue", Blue::DodgerBlue),
        ("#add8e6", Blue::LightBlue),
        ("add8e6", Blue::LightBlue),
        ("lightblue", Blue::LightBlue),
        ("#87ceeb", Blue::SkyBlue),
        ("87ceeb", Blue::SkyBlue),
        ("skyblue", Blue::SkyBlue),
        ("#b0c4de", Blue::LightSteelBlue),
        ("b0c4de", Blue::LightSteelBlue),
        ("lightsteelblue", Blue::LightSteelBlue),
        ("#87cefa", Blue::LightSkyBlue),
        ("87cefa", Blue::LightSkyBlue),
        ("lightskyblue", Blue::LightSkyBlue),
        ("#191970", Blue::MidnightBlue),
        ("191970", Blue::MidnightBlue),
        ("midnightblue", Blue::MidnightBlue),
        ("#000080", Blue::Navy),
        ("000080", Blue::Navy),
        ("navy", Blue::Navy),
        ("#00008b", Blue::DarkBlue),
        ("00008b", Blue::DarkBlue),
        ("darkblue", Blue::DarkBlue),
        ("#0000cd", Blue::MediumBlue),
        ("0000cd", Blue::MediumBlue),
        ("mediumblue", Blue::MediumBlue),
        ("#0000ff", Blue::Blue),
        ("0000ff", Blue::Blue),
        ("blue", Blue::Blue),
        ("#4169e1", Blue::RoyalBlue),
        ("4169e1", Blue::RoyalBlue),
        ("royalblue", Blue::RoyalBlue),
        ("#f0ffff", Blue::Azure),
        ("f0ffff", Blue::Azure),
        ("azure", Blue::Azure),
    ];
    for (input, expected) in cases {
        assert_eq!(expected, Blue::from_str(input).unwrap());
        assert_eq!(Some(expected), Blue::parse(input));
    }
}

#[test]
fn blue_name_colour_cases() {
    let cases = [
        ("#b0e0e6", Some(Blue::PowderBlue)),
        ("b0e0e6", Some(Blue::PowderBlue)),
        ("powderblue", Some(Blue::PowderBlue)),
        ("#5f9ea0", Some(Blue::CadetBlue)),
        ("5f9ea0", Some(Blue::CadetBlue)),
        ("cadetblue", Some(Blue::CadetBlue)),
        ("#4682b4", Some(Blue::SteelBlue)),
        ("4682b4", Some(Blue::SteelBlue)),
        ("steelblue", Some(Blue::SteelBlue)),
        ("#6495ed", Some(Blue::CornflowerBlue)),
        ("6495ed", Some(Blue::CornflowerBlue)),
        ("cornflowerblue", Some(Blue::CornflowerBlue)),
        ("#00bfff", Some(Blue::DeepSkyBlue)),
        ("00bfff", Some(Blue::DeepSkyBlue)),
        ("deepskyblue", Some(Blue::DeepSkyBlue)),
        ("#1e90ff", Some(Blue::DodgerBlue)),
        ("1e90ff", Some(Blue::DodgerBlue)),
        ("dodgerblue", Some(Blue::DodgerBlue)),
        ("#add8e6", Some(Blue::LightBlue)),
        ("add8e6", Some(Blue::LightBlue)),
        ("lightblue", Some(Blue::LightBlue)),
        ("#87ceeb", Some(Blue::SkyBlue)),
        ("87ceeb", Some(Blue::SkyBlue)),
        ("skyblue", Some(Blue::SkyBlue)),
        ("#b0c4de", Some(Blue::LightSteelBlue)),
        ("b0c4de", Some(Blue::LightSteelBlue)),
        ("lightsteelblue", Some(Blue::LightSteelBlue)),
        ("#87cefa", Some(Blue::LightSkyBlue)),
        ("87cefa", Some(Blue::LightSkyBlue)),
        ("lightskyblue", Some(Blue::LightSkyBlue)),
        ("#191970", Some(Blue::MidnightBlue)),
        ("191970", Some(Blue::MidnightBlue)),
        ("midnightblue", Some(Blue::MidnightBlue)),
        ("#000080", Some(Blue::Navy)),
        ("000080", Some(Blue::Navy)),
        ("navy", Some(Blue::Navy)),
        ("#00008b", Some(Blue::DarkBlue)),
        ("00008b", Some(Blue::DarkBlue)),
        ("darkblue", Some(Blue::DarkBlue)),
        ("#0000cd", Some(Blue::MediumBlue)),
        ("0000cd", Some(Blue::MediumBlue)),
        ("mediumblue", Some(Blue::MediumBlue)),
        ("#0000ff", Some(Blue::Blue)),
        ("0000ff", Some(Blue::Blue)),
        ("blue", Some(Blue::Blue)),
        ("#4169e1", Some(Blue::RoyalBlue)),
        ("4169e1", Some(Blue::RoyalBlue)),
        ("royalblue", Some(Blue::RoyalBlue)),
        ("#f0ffff", Some(Blue::Azure)),
        ("f0ffff", Some(Blue::Azure)),
        ("azure", Some(Blue::Azure)),
        ("012345", None),
    ];
    for (input, expected) in cases {
        assert_eq!(expected, Blue::name_colour(input));
    }
}
