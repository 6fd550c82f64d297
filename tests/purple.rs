use std::str::FromStr;

use named_colour::{Purple, ExtendedColour, Prefix};

#[test]
fn purple_rgb_strings() {
    let cases = [
        (Purple::Purple, "rgb(128,0,128)"),
        (Purple::Thistle, "rgb(216,191,216)"),
        (Purple::Plum, "rgb(221,160,221)"),
        (Purple::Violet, "rgb(238,130,238)"),
        (Purple::Magenta, "rgb(255,0,255)"),
        (Purple::Fuchsia, "rgb(255,0,255)"),
        (Purple::Orchid, "rgb(218,112,214)"),
        (Purple::MediumVioletRed, "rgb(199,21,133)"),
        (Purple::PaleVioletRed, "rgb(219,112,147)"),
        (Purple::DeepPink, "rgb(255,20,147)"),
        (Purple::HotPink, "rgb(255,105,180)"),
        (Purple::LightPink, "rgb(255,182,193)"),
        (Purple::Pink, "rgb(255,192,203)"),
    ];
    for (colour, expected) in cases {
        assert_eq!(expected, colour.to_rgb().to_string());
    }
}

#[test]
fn purple_hex_triplets() {
    let cases = [
        (Purple::Purple, "800080"),
        (Purple::Thistle, "D8BFD8"),
        (Purple::Plum, "DDA0DD"),
        (Purple::Violet, "EE82EE"),
        (Purple::Magenta, "FF00FF"),
        (Purple::Fuchsia, "FF00FF"),
        (Purple::Orchid, "DA70D6"),
        (Purple::MediumVioletRed, "C71585"),
        (Purple::PaleVioletRed, "DB7093"),
        (Purple::DeepPink, "FF1493"),
        (Purple::HotPink, "FF69B4"),
        (Purple::LightPink, "FFB6C1"),
        (Purple::Pink, "FFC0CB"),
    ];
    for (colour, expected) in cases {
        assert_eq!(expected, colour.to_hex_triplet(Prefix::Bare));
        assert_eq!(format!("#{}", expected), colour.to_hex_triplet(Prefix::Hash));
        assert_eq!(format!("#{}", expected), colour.to_string());
    }
}

#[test]
fn purple_from_str_cases() {
    let cases = [
        ("#4b0082", Purple::Indigo),
        ("4b0082", Purple::Indigo),
        ("indigo", Purple::Indigo),
        ("#800080", Purple::Purple),
        ("800080", Purple::Purple),
        ("purple", Purple::Purple),
        ("#8b008b", Purple::DarkMagenta),
        ("8b008b", Purple::DarkMagenta),
        ("darkmagenta", Purple::DarkMagenta),
        ("#9400d3", Purple::DarkViolet),
        ("9400d3", Purple::DarkViolet),
        ("darkviolet", Purple::DarkViolet),
        ("#483d8b", Purple::DarkSlateBlue),
        ("483d8b", Purple::DarkSlateBlue),
        ("darkslateblue", Purple::DarkSlateBlue),
        ("#8a2be2", Purple::BlueViolet),
        ("8a2be2", Purple::BlueViolet),
        ("blueviolet", Purple::BlueViolet),
        ("#9932cc", Purple::DarkOrchid),
        ("9932cc", Purple::DarkOrchid),
        ("darkorchid", Purple::DarkOrchid),
        ("fuchsia", Purple::Fuchsia),
        ("#ff00ff", Purple::Magenta),
        ("ff00ff", Purple::Magenta),
        ("magenta", Purple::Magenta),
        ("#6a5acd", Purple::SlateBlue),
        ("6a5acd", Purple::SlateBlue),
        ("slateblue", Purple::SlateBlue),
        ("#7b68ee", Purple::MediumSlateBlue),
        ("7b68ee", Purple::MediumSlateBlue),
        ("mediumslateblue", Purple::MediumSlateBlue),
        ("#ba55d3", Purple::MediumOrchid),
        ("ba55d3", Purple::MediumOrchid),
        ("mediumorchid", Purple::MediumOrchid),
        ("#9370db", Purple::MediumPurple),
        ("9370db", Purple::MediumPurple),
        ("mediumpurple", Purple::MediumPurple),
        ("#da70d6", Purple::Orchid),
        ("da70d6", Purple::Orchid),
        ("orchid", Purple::Orchid),
        ("#ee82ee", Purple::Violet),
        ("ee82ee", Purple::Violet),
        ("violet", Purple::Violet),
        ("#dda0dd", Purple::Plum),
        ("dda0dd", Purple::Plum),
        ("plum", Purple::Plum),
        ("#d8bfd8", Purple::Thistle),
        ("d8bfd8", Purple::Thistle),
        ("thistle", Purple::Thistle),
        ("#e6e6fa", Purple::Lavender),
        ("e6e6fa", Purple::Lavender),
        ("lavender", Purple::Lavender),
        ("#ffc0cb", Purple::Pink),
        ("ffc0cb", Purple::Pink),
        ("pink", Purple::Pink),
        ("#c71585", Purple::MediumVioletRed),
        ("c71585", Purple::MediumVioletRed),
        ("mediumvioletred", Purple::MediumVioletRed),
        ("#db7093", Purple::PaleVioletRed),
        ("db7093", Purple::PaleVioletRed),
        ("palevioletred", Purple::PaleVioletRed),
        ("deeppink", Purple::DeepPink),
        ("ff1493", Purple::DeepPink),
        ("deeppink", Purple::DeepPink),
        ("#ff69b4", Purple::HotPink),
        ("ff69b4", Purple::HotPink),
        ("hotpink", Purple::HotPink),
        ("#ffb6c1", Purple::LightPink),
        ("ffb6c1", Purple::LightPink),
        ("lightpink", Purple::LightPink),
    ];
    for (input, expected) in cases {
        assert_eq!(expected, Purple::from_str(input).unwrap());
        assert_eq!(Some(expected), Purple::parse(input));
    }
}

#[test]
fn purple_name_colour_cases() {
    let cases = [
        ("#4b0082", Some(Purple::Indigo)),
        ("4b0082", Some(Purple::Indigo)),
        ("indigo", Some(Purple::Indigo)),
        ("#800080", Some(Purple::Purple)),
        ("800080", Some(Purple::Purple)),
        ("purple", Some(Purple::Purple)),
        ("#8b008b", Some(Purple::DarkMagenta)),
        ("8b008b", Some(Purple::DarkMagenta)),
        ("darkmagenta", Some(Purple::DarkMagenta)),
        ("#9400d3", Some(Purple::DarkViolet)),
        ("9400d3", Some(Purple::DarkViolet)),
        ("darkviolet", Some(Purple::DarkViolet)),
        ("#483d8b", Some(Purple::DarkSlateBlue)),
        ("483d8b", Some(Purple::DarkSlateBlue)),
        ("darkslateblue", Some(Purple::DarkSlateBlue)),
        ("#8a2be2", Some(Purple::BlueViolet)),
        ("8a2be2", Some(Purple::BlueViolet)),
        ("blueviolet", Some(Purple::BlueViolet)),
        ("#9932cc", Some(Purple::DarkOrchid)),
        ("9932cc", Some(Purple::DarkOrchid)),
        ("darkorchid", Some(Purple::DarkOrchid)),
        ("fuchsia", Some(Purple::Fuchsia)),
        ("#ff00ff", Some(Purple::Magenta)),
        ("ff00ff", Some(Purple::Magenta)),
        ("magenta", Some(Purple::Magenta)),
        ("#6a5acd", Some(Purple::SlateBlue)),
        ("6a5acd", Some(Purple::SlateBlue)),
        ("slateblue", Some(Purple::SlateBlue)),
        ("#7b68ee", Some(Purple::MediumSlateBlue)),
        ("7b68ee", Some(Purple::MediumSlateBlue)),
        ("mediumslateblue", Some(Purple::MediumSlateBlue)),
        ("#ba55d3", Some(Purple::MediumOrchid)),
        ("ba55d3", Some(Purple::MediumOrchid)),
        ("mediumorchid", Some(Purple::MediumOrchid)),
        ("#9370db", Some(Purple::MediumPurple)),
        ("9370db", Some(Purple::MediumPurple)),
        ("mediumpurple", Some(Purple::MediumPurple)),
        ("#da70d6", Some(Purple::Orchid)),
        ("da70d6", Some(Purple::Orchid)),
        ("orchid", Some(Purple::Orchid)),
        ("#ee82ee", Some(Purple::Violet)),
        ("ee82ee", Some(Purple::Violet)),
        ("violet", Some(Purple::Violet)),
        ("#dda0dd", Some(Purple::Plum)),
        ("dda0dd", Some(Purple::Plum)),
        ("plum", Some(Purple::Plum)),
        ("#d8bfd8", Some(Purple::Thistle)),
        ("d8bfd8", Some(Purple::Thistle)),
        ("thistle", Some(Purple::Thistle)),
        ("#e6e6fa", Some(Purple::Lavender)),
        ("e6e6fa", Some(Purple::Lavender)),
        ("lavender", Some(Purple::Lavender)),
        ("#ffc0cb", Some(Purple::Pink)),
        ("ffc0cb", Some(Purple::Pink)),
        ("pink", Some(Purple::Pink)),
        ("#c71585", Some(Purple::MediumVioletRed)),
        ("c71585", Some(Purple::MediumVioletRed)),
        ("mediumvioletred", Some(Purple::MediumVioletRed)),
        ("#db7093", Some(Purple::PaleVioletRed)),
        ("db7093", Some(Purple::PaleVioletRed)),
        ("palevioletred", Some(Purple::PaleVioletRed)),
        ("deeppink", Some(Purple::DeepPink)),
        ("ff1493", Some(Purple::DeepPink)),
        ("deeppink", Some(Purple::DeepPink)),
        ("#ff69b4", Some(Purple::HotPink)),
        ("ff69b4", Some(Purple::HotPink)),
        ("hotpink", Some(Purple::HotPink)),
        ("#ffb6c1", Some(Purple::LightPink)),
        ("ffb6c1", Some(Purple::LightPink)),
        ("lightpink", Some(Purple::LightPink)),
        ("012345", None),
    ];
    for (input, expected) in cases {
        assert_eq!(expected, Purple::name_colour(input));
    }
}
