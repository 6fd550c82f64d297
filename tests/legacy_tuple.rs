use named_colour::{Basic, Black, Blue, Brown, Cyan, Green, Indigo, Lavender, Purple, Red, White, Yellow};

#[test]
fn display_as_rgb() {
    assert_eq!("(0,255,255)", Basic::Aqua.as_rgb())
}

#[test]
fn display_black_as_rgb() {
    assert_eq!("(112,128,144)", Black::SlateGray.as_rgb())
}

#[test]
fn display_blue_as_rgb() {
    assert_eq!("(70,130,180)", Blue::SteelBlue.as_rgb())
}

#[test]
fn display_brown_as_rgb() {
    assert_eq!("(244,164,96)", Brown::SandyBrown.as_rgb())
}

#[test]
fn display_cyan_as_rgb() {
    assert_eq!("(0,128,128)", Cyan::Teal.as_rgb())
}

#[test]
fn display_green_as_rgb() {
    assert_eq!("(107,142,35)", Green::OliveDrab.as_rgb())
}

#[test]
fn display_indigo_as_rgb() {
    assert_eq!("(75,0,130)", Indigo::Indigo.as_rgb())
}

#[test]
fn display_lavender_as_rgb() {
    assert_eq!("(230,230,250)", Lavender::Lavender.as_rgb())
}

#[test]
fn display_purple_as_rgb() {
    assert_eq!("(128,0,128)", Purple::Purple.as_rgb())
}

#[test]
fn display_red_as_rgb() {
    assert_eq!("(178,34,34)", Red::Firebrick.as_rgb())
}

#[test]
fn display_white_as_rgb() {
    assert_eq!("(250,240,230)", White::Linen.as_rgb())
}

#[test]
fn display_yellow_as_rgb() {
    assert_eq!("(240,230,140)", Yellow::Khaki.as_rgb())
}
