use bytewarden::theme::{Theme, Color, parse_theme_section, hex};

#[test]
fn default_theme_colours() {
    let t = Theme::default();
    assert_eq!(t.accent, Color::Cyan);
    assert_eq!(t.inactive, Color::Rgb(140, 140, 160));
    assert_eq!(t.item_favorite, Color::Rgb(255, 200, 0));
}

#[test]
fn hex_values() {
    assert_eq!(hex("#cba6f7"), Color::Rgb(0xcb, 0xa6, 0xf7));
    assert_eq!(hex("#CBA6F7"), Color::Rgb(0xcb, 0xa6, 0xf7));
    assert_eq!(hex("#+f0010"), Color::Rgb(15, 0, 16));
    assert_eq!(hex("#zz0010"), Color::Reset);
    assert_eq!(hex("#zzzzzz"), Color::Reset);
    assert_eq!(hex("##12345"), Color::Reset);
    assert_eq!(hex("#12"), Color::Reset);
}

#[test]
fn theme_section_overrides() {
    let text = "accent = \"#000001\"\n[theme]\naccent = \"#010203\" # note\ndim = #0a0b0c trailing\nerror = \"#12345\"\nunknown = \"#ffffff\"\n[other]\nsuccess = \"#ffffff\"\n";
    let t = parse_theme_section(text);
    assert_eq!(t.accent, Color::Rgb(1, 2, 3));
    assert_eq!(t.dim, Color::Rgb(10, 11, 12));
    assert_eq!(t.error, Color::Red);
    assert_eq!(t.success, Color::Green);
    assert_eq!(parse_theme_section(""), Theme::default());
}

#[test]
fn values_that_are_not_hex_give_the_terminal_colour() {
    assert_eq!(parse_theme_section("[theme]\naccent = \"#aé123\"\n").accent, Color::Reset);
    assert_eq!(parse_theme_section("[theme]\naccent = \"#é1234\"\n").accent, Color::Reset);
}
