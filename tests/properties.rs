use std::fmt::Debug;

use named_colour::ext::{named_colour_at, random_named_colour_from, FAMILY_COUNT};
use named_colour::family::{self, parse_lowered, pick, random_from};
use named_colour::{
    decode, encode, name_colour, random_named_colour, Basic, Black, Blue, Brown, ColourFamily,
    ColourRgb, Cyan, ExtendedColour, Green, Indigo, Lavender, MalformedHex, NamedColour, Prefix,
    Purple, Red, White, Yellow,
};
use tinyrand::{Seeded, StdRand};

fn variants<C: ColourFamily>() -> Vec<C> {
    (0..C::variant_count()).map(|i| C::at(i)).collect()
}

fn round_trip_family<C: ColourFamily>() {
    for v in variants::<C>() {
        for prefix in [Prefix::Bare, Prefix::Hash] {
            assert_eq!(Ok(v.channels()), decode(&encode(v.channels(), prefix)));
        }
    }
}

fn parse_family<C: ColourFamily + Copy + PartialEq + Debug>() {
    for v in variants::<C>() {
        let name = v.name_text();
        assert_eq!(Some(v), family::parse::<C>(name));
        assert_eq!(Some(v), family::parse::<C>(&name.to_uppercase()));
        assert_eq!(Some(v), parse_lowered::<C>(name));
        let holder = family::parse::<C>(&encode(v.channels(), Prefix::Hash)).unwrap();
        assert_eq!(v.channels(), holder.channels());
        assert!(holder.holds_hex());
        if v.holds_hex() {
            for prefix in [Prefix::Bare, Prefix::Hash] {
                let hex = encode(v.channels(), prefix);
                assert_eq!(Some(v), family::parse::<C>(&hex));
                assert_eq!(Some(v), family::parse::<C>(&hex.to_lowercase()));
                assert_eq!(family::parse::<C>(name), family::parse::<C>(&hex));
            }
        } else {
            assert_ne!(Some(v), family::parse::<C>(&encode(v.channels(), Prefix::Hash)));
        }
    }
}

fn draws_family<C: ColourFamily + Copy + PartialEq + Debug>() {
    let all = variants::<C>();
    let mut rand = StdRand::seed(7);
    let mut seen = vec![false; all.len()];
    for _ in 0..20_000 {
        let v: C = random_from(&mut rand);
        let i = all.iter().position(|w| *w == v).unwrap();
        seen[i] = true;
    }
    assert!(seen.iter().all(|s| *s));
    for (i, v) in all.iter().enumerate() {
        assert_eq!(*v, pick::<C>(i));
    }
    assert_eq!(C::at(all.len()), pick::<C>(all.len()));
    assert_eq!(C::at(usize::MAX), pick::<C>(usize::MAX));
}

#[test]
fn round_trip_in_every_family() {
    round_trip_family::<Basic>();
    round_trip_family::<Black>();
    round_trip_family::<Blue>();
    round_trip_family::<Brown>();
    round_trip_family::<Cyan>();
    round_trip_family::<Green>();
    round_trip_family::<Indigo>();
    round_trip_family::<Lavender>();
    round_trip_family::<Purple>();
    round_trip_family::<Red>();
    round_trip_family::<White>();
    round_trip_family::<Yellow>();
}

#[test]
fn parse_is_idempotent_in_every_family() {
    parse_family::<Basic>();
    parse_family::<Black>();
    parse_family::<Blue>();
    parse_family::<Brown>();
    parse_family::<Cyan>();
    parse_family::<Green>();
    parse_family::<Indigo>();
    parse_family::<Lavender>();
    parse_family::<Purple>();
    parse_family::<Red>();
    parse_family::<White>();
    parse_family::<Yellow>();
}

#[test]
fn aliases_of_one_variant_agree() {
    let keys = ["#708090", "708090", "slategray", "SlateGray", "SLATEGRAY", "#708090"];
    for k in keys {
        assert_eq!(Some(Black::SlateGray), Black::parse(k));
    }
    assert_eq!(Some(Black::SlateGrey), Black::parse("slategrey"));
    assert_eq!(Basic::parse("fuchsia"), Some(Basic::Fuchsia));
}

#[test]
fn shared_hex_resolves_to_one_variant() {
    assert_eq!(Basic::Fuchsia.to_string(), Basic::Magenta.to_string());
    assert_eq!("#FF00FF", Basic::Fuchsia.to_string());
    assert_eq!(Some(Basic::Magenta), Basic::parse("#FF00FF"));
    assert_eq!(Some(Basic::Magenta), Basic::parse("ff00ff"));
    assert_eq!(Some(Basic::Aqua), Basic::parse("#00FFFF"));
    assert_eq!(Some(Purple::Magenta), Purple::parse("#ff00ff"));
    assert_eq!(Some(Cyan::Aqua), Cyan::parse("#00ffff"));
    assert_eq!(Some(Black::LightGray), Black::parse("#D3D3D3"));
}

#[test]
fn prefix_shapes() {
    for v in variants::<White>() {
        let hash = v.to_hex_triplet(Prefix::Hash);
        let bare = v.to_hex_triplet(Prefix::Bare);
        assert!(hash.starts_with('#'));
        assert!(!bare.starts_with('#'));
        assert_eq!(6, bare.len());
        assert_eq!(&hash[1..], bare);
    }
}

#[test]
fn every_variant_is_drawn() {
    draws_family::<Basic>();
    draws_family::<Black>();
    draws_family::<Blue>();
    draws_family::<Brown>();
    draws_family::<Cyan>();
    draws_family::<Green>();
    draws_family::<Indigo>();
    draws_family::<Lavender>();
    draws_family::<Purple>();
    draws_family::<Red>();
    draws_family::<White>();
    draws_family::<Yellow>();
}

#[test]
fn fixed_start_draws_stay_in_range() {
    for _ in 0..10 {
        let v = Blue::random();
        assert!(variants::<Blue>().contains(&v));
        let _ = Basic::random();
        let _ = Brown::random();
    }
}

#[test]
fn repeated_calls_reach_every_variant() {
    let all = variants::<Brown>();
    let mut seen = vec![false; all.len()];
    for _ in 0..20_000 {
        let v = Brown::random();
        seen[all.iter().position(|w| *w == v).unwrap()] = true;
    }
    assert!(seen.iter().all(|s| *s));
    let first = random_named_colour();
    assert!((0..20_000).any(|_| random_named_colour() != first));
}

#[test]
fn fallbacks_past_the_last_position() {
    assert_eq!(Blue::Blue, pick::<Blue>(17));
    assert_eq!(Brown::Peru, pick::<Brown>(8));
    assert_eq!(Cyan::Cyan, pick::<Cyan>(15));
    assert_eq!(Green::Green, pick::<Green>(18));
    assert_eq!(Red::Red, pick::<Red>(16));
    assert_eq!(White::White, pick::<White>(20));
    assert_eq!(Blue::MidnightBlue, pick::<Blue>(9));
    assert_eq!(Blue::LightSteelBlue, pick::<Blue>(16));
    assert_eq!(Green::Lime, pick::<Green>(10));
    assert_eq!(Green::SeaGreen, pick::<Green>(17));
}

#[test]
fn unregistered_hex_is_absent() {
    assert_eq!(None, Black::parse("012345"));
    assert_eq!(None, Black::name_colour("012345"));
    assert_eq!(None, Basic::parse("#012345"));
    assert_eq!(None, Black::parse(""));
    assert_eq!(None, Black::parse("not a colour"));
}

#[test]
fn light_gray_scenario() {
    let colour = Black::parse("#d3d3d3").unwrap();
    assert_eq!(Black::LightGray, colour);
    assert_eq!(Some(colour), Black::parse("LightGray"));
    assert_eq!("#D3D3D3", colour.to_hex_triplet(Prefix::Hash));
    assert_eq!("rgb(211,211,211)", colour.to_rgb().to_string());
    assert_eq!(Some(Black::LightGray), name_colour::<Black>("#d3d3d3"));
}

#[test]
fn invalid_colour_error_repeats_input() {
    let err = <Black as std::str::FromStr>::from_str("Mauve").unwrap_err();
    assert_eq!("Invalid Colour: Mauve", err);
    assert_eq!(Err("Invalid Colour: #123456".to_string()), family::from_string::<Red>("#123456"));
    assert_eq!(Ok(Red::Tomato), family::from_string::<Red>("TOMATO"));
}

#[test]
fn malformed_hex_is_an_error() {
    assert_eq!(Err(MalformedHex), decode("#12345"));
    assert_eq!(Err(MalformedHex), decode("#1234567"));
    assert_eq!(Err(MalformedHex), decode("#12345g"));
    assert_eq!(Err(MalformedHex), decode(""));
    assert_eq!(Err(MalformedHex), decode("##123456"));
    assert_eq!(Ok(ColourRgb::new(0x12, 0x34, 0xAB)), decode("#1234ab"));
    assert_eq!(Ok(ColourRgb::new(0x12, 0x34, 0xAB)), decode("1234AB"));
    assert_eq!(Ok(ColourRgb::new(255, 255, 255)), decode("fFfFfF"));
}

#[test]
fn hex_keys_follow_canonical_codes() {
    assert_eq!(Some(Yellow::Goldenrod), Yellow::parse("#DAA520"));
    assert_eq!(None, Yellow::parse("#dab500"));
    assert_eq!(Some(Purple::Magenta), Purple::parse("#FF00FF"));
    assert_eq!(None, Purple::parse("#a020f0"));
}

#[test]
fn non_ascii_input_goes_through_lowercasing() {
    assert_eq!(None, Black::parse("ÉBLACK"));
    assert_eq!(Some(Yellow::Khaki), Yellow::parse("\u{212A}haki"));
}

#[test]
fn named_colours_across_families() {
    assert_eq!(NamedColour::Cyan(Cyan::Teal), named_colour_at(3, 4));
    assert_eq!(NamedColour::Black(Black::Black), named_colour_at(FAMILY_COUNT, 4));
    assert_eq!(NamedColour::Yellow(Yellow::Yellow), named_colour_at(10, 99));
    assert_eq!("#008080", named_colour_at(3, 4).to_hex_triplet(Prefix::Hash));
    assert_eq!(ColourRgb::new(0, 128, 128), named_colour_at(3, 4).to_rgb());
    let mut rand = StdRand::seed(3);
    let mut families = [false; FAMILY_COUNT];
    for _ in 0..5_000 {
        let c = random_named_colour_from(&mut rand);
        let f = match c {
            NamedColour::Black(_) => 0,
            NamedColour::Blue(_) => 1,
            NamedColour::Brown(_) => 2,
            NamedColour::Cyan(_) => 3,
            NamedColour::Green(_) => 4,
            NamedColour::Indigo(_) => 5,
            NamedColour::Lavender(_) => 6,
            NamedColour::Purple(_) => 7,
            NamedColour::Red(_) => 8,
            NamedColour::White(_) => 9,
            NamedColour::Yellow(_) => 10,
        };
        families[f] = true;
    }
    assert!(families.iter().all(|f| *f));
    let _ = random_named_colour();
}

#[test]
fn extended_name_colour_is_uniform() {
    assert_eq!(Some(Green::Lime), Green::name_colour("LIME"));
    assert_eq!(Some(Red::Crimson), name_colour::<Red>("#dc143c"));
    assert_eq!(None, name_colour::<Lavender>("crimson"));
}
