use chromaterm::colors::simple::{
    Black, Blue, BrightBlack, BrightBlue, BrightCyan, BrightGreen, BrightMagenta, BrightRed,
    BrightWhite, BrightYellow, Cyan, Green, Magenta, Red, White, Yellow,
};
use chromaterm::colors::{full_color_to_cube, EightBit, ParseError, Simple, True};
use chromaterm::conversion::{ToEightBit, ToSimple};
use chromaterm::{Color, ColorLevel, Colors};

fn fg<C: Color>(color: &C) -> String {
    let mut out = String::new();
    color.fmt_fg(&mut out);
    out
}

fn bg<C: Color>(color: &C) -> String {
    let mut out = String::new();
    color.fmt_bg(&mut out);
    out
}

const ALL_SIMPLE: [Simple; 16] = [
    Simple::Black,
    Simple::Red,
    Simple::Green,
    Simple::Yellow,
    Simple::Blue,
    Simple::Magenta,
    Simple::Cyan,
    Simple::White,
    Simple::BrightBlack,
    Simple::BrightRed,
    Simple::BrightGreen,
    Simple::BrightYellow,
    Simple::BrightBlue,
    Simple::BrightMagenta,
    Simple::BrightCyan,
    Simple::BrightWhite,
];

#[test]
fn test_cube_rgb_lookup_first() {
    let rgb = EightBit::from(16).cube_rgb_lookup();
    assert_eq!(rgb, (0, 0, 0));
}

#[test]
fn test_cube_rgb_lookup_last() {
    let rgb = EightBit::from(231).cube_rgb_lookup();
    assert_eq!(rgb, (0xFF, 0xFF, 0xFF));
}

#[test]
fn test_cube_rgb_lookup_blue() {
    let rgb = EightBit::from(21).cube_rgb_lookup();
    assert_eq!(rgb, (0, 0, 0xFF));
}

#[test]
fn test_cube_rgb_lookup_green() {
    let rgb = EightBit::from(46).cube_rgb_lookup();
    assert_eq!(rgb, (0, 0xFF, 0));
}

#[test]
fn test_cube_rgb_lookup_red() {
    let rgb = EightBit::from(196).cube_rgb_lookup();
    assert_eq!(rgb, (0xFF, 0, 0));
}

#[test]
fn test_to_simple_black() {
    assert_eq!(True::from_rgb(0, 0, 0).to_simple(), Simple::Black);
}

#[test]
fn test_to_simple_red() {
    assert_eq!(True::from_rgb(0xAA, 0, 0).to_simple(), Simple::Red);
}

#[test]
fn test_to_simple_yellow() {
    assert_eq!(True::from_rgb(0xAA, 0xAA, 0).to_simple(), Simple::Yellow);
}

#[test]
fn test_to_simple_green() {
    assert_eq!(True::from_rgb(0, 0xAA, 0).to_simple(), Simple::Green);
}

#[test]
fn test_to_simple_blue() {
    assert_eq!(True::from_rgb(0, 0, 0xAA).to_simple(), Simple::Blue);
}

#[test]
fn test_to_simple_white() {
    assert_eq!(True::from_rgb(0xAA, 0xAA, 0xAA).to_simple(), Simple::White);
}

#[test]
fn test_to_simple_bright_red() {
    assert_eq!(True::from_rgb(0xFF, 0, 0).to_simple(), Simple::BrightRed);
}

#[test]
fn test_to_simple_bright_yellow() {
    assert_eq!(True::from_rgb(0xFF, 0xFF, 0).to_simple(), Simple::BrightYellow);
}

#[test]
fn test_to_simple_bright_green() {
    assert_eq!(True::from_rgb(0, 0xFF, 0).to_simple(), Simple::BrightGreen);
}

#[test]
fn test_to_simple_bright_blue() {
    assert_eq!(True::from_rgb(0, 0, 0xFF).to_simple(), Simple::BrightBlue);
}

#[test]
fn test_to_simple_bright_white() {
    assert_eq!(True::from_rgb(0xFF, 0xFF, 0xFF).to_simple(), Simple::BrightWhite);
}

#[test]
fn test_to_eight_bit_black() {
    assert_eq!(True::from_rgb(0, 0, 0).to_eight_bit(), EightBit::from(16u8));
}

#[test]
fn test_to_eight_bit_white() {
    assert_eq!(True::from_rgb(0xFF, 0xFF, 0xFF).to_eight_bit(), EightBit::from(231u8));
}

#[test]
fn test_to_eight_bit_red() {
    assert_eq!(True::from_rgb(0xFF, 0, 0).to_eight_bit(), EightBit::from(196u8));
}

#[test]
fn test_to_eight_bit_cyan() {
    assert_eq!(True::from_rgb(0, 0xFF, 0xFF).to_eight_bit(), EightBit::from(51u8));
}

#[test]
fn closest_for_every_mix_of_off_dim_and_full() {
    let levels = [0x00u8, 0xAA, 0xFF];
    for r in levels {
        for g in levels {
            for b in levels {
                let hue = (r != 0) as usize + 2 * (g != 0) as usize + 4 * (b != 0) as usize;
                let bright = r == 0xFF || g == 0xFF || b == 0xFF;
                let expected = ALL_SIMPLE[hue + if bright { 8 } else { 0 }];
                assert_eq!(Simple::closest(r, g, b), expected);
                assert_eq!(True::from_rgb(r, g, b).to_simple(), expected);
            }
        }
    }
}

#[test]
fn closest_brightness_goes_by_the_or_of_the_channels() {
    // No channel reaches 0xC0, but together they do.
    assert_eq!(Simple::closest(0x80, 0x40, 0x00), Simple::BrightRed);
    assert_eq!(Simple::closest(0x40, 0x80, 0x00), Simple::BrightGreen);
    assert_eq!(Simple::closest(0xBF, 0x00, 0x00), Simple::Red);
    assert_eq!(Simple::closest(0xC0, 0x00, 0x00), Simple::BrightRed);
    assert_eq!(Simple::closest(0x7F, 0x7F, 0x7F), Simple::Black);
    assert_eq!(Simple::closest(0x80, 0x80, 0x80), Simple::White);
    assert_eq!(Simple::closest(0x40, 0x40, 0xC0), Simple::BrightBlue);
    assert_eq!(Simple::closest(0x55, 0x55, 0x55), Simple::Black);
    assert_eq!(Simple::closest(0xC0, 0x7F, 0x7F), Simple::BrightRed);
    assert_eq!(Simple::closest(0x00, 0x80, 0x80), Simple::Cyan);
    assert_eq!(Simple::closest(0x80, 0x00, 0x80), Simple::Magenta);
    assert_eq!(Simple::closest(0xFF, 0x00, 0xFF), Simple::BrightMagenta);
    assert_eq!(Simple::closest(0x00, 0xFF, 0xFF), Simple::BrightCyan);
}

#[test]
fn every_simple_color_but_bright_black_is_closest_to_itself() {
    for color in ALL_SIMPLE {
        let (r, g, b) = color.rgb_u8();
        let expected = if color == Simple::BrightBlack { Simple::Black } else { color };
        assert_eq!(Simple::closest(r, g, b), expected);
    }
}

#[test]
fn simple_codes() {
    let codes = [30u8, 31, 32, 33, 34, 35, 36, 37, 90, 91, 92, 93, 94, 95, 96, 97];
    for (color, code) in ALL_SIMPLE.iter().zip(codes) {
        assert_eq!(fg(color), code.to_string());
        assert_eq!(bg(color), (code + 10).to_string());
        assert_eq!(color.level(), ColorLevel::Simple);
        assert_eq!(color.to_simple(), *color);
    }
    assert_eq!(fg(&Simple::Red), "31");
    assert_eq!(bg(&Simple::Red), "41");
    assert_eq!(fg(&Simple::BrightBlack), "90");
    assert_eq!(bg(&Simple::BrightBlack), "100");
    assert_eq!(bg(&Simple::BrightWhite), "107");
}

#[test]
fn simple_rgb_values() {
    assert_eq!(Simple::Black.rgb_u8(), (0, 0, 0));
    assert_eq!(Simple::Red.rgb_u8(), (0xAA, 0, 0));
    assert_eq!(Simple::Green.rgb_u8(), (0, 0xAA, 0));
    assert_eq!(Simple::Yellow.rgb_u8(), (0xAA, 0xAA, 0));
    assert_eq!(Simple::Blue.rgb_u8(), (0, 0, 0xAA));
    assert_eq!(Simple::Magenta.rgb_u8(), (0xAA, 0, 0xAA));
    assert_eq!(Simple::Cyan.rgb_u8(), (0, 0xAA, 0xAA));
    assert_eq!(Simple::White.rgb_u8(), (0xAA, 0xAA, 0xAA));
    assert_eq!(Simple::BrightBlack.rgb_u8(), (0x55, 0x55, 0x55));
    assert_eq!(Simple::BrightRed.rgb_u8(), (0xFF, 0x55, 0x55));
    assert_eq!(Simple::BrightGreen.rgb_u8(), (0x55, 0xFF, 0x55));
    assert_eq!(Simple::BrightYellow.rgb_u8(), (0xFF, 0xFF, 0x55));
    assert_eq!(Simple::BrightBlue.rgb_u8(), (0x55, 0x55, 0xFF));
    assert_eq!(Simple::BrightMagenta.rgb_u8(), (0xFF, 0x55, 0xFF));
    assert_eq!(Simple::BrightCyan.rgb_u8(), (0x55, 0xFF, 0xFF));
    assert_eq!(Simple::BrightWhite.rgb_u8(), (0xFF, 0xFF, 0xFF));
}

#[test]
fn color_types_agree_with_the_enum() {
    fn check<C: Color + ToSimple + ToEightBit>(color: C, simple: Simple) {
        assert_eq!(fg(&color), fg(&simple));
        assert_eq!(bg(&color), bg(&simple));
        assert_eq!(color.rgb_u8(), simple.rgb_u8());
        assert_eq!(color.level(), ColorLevel::Simple);
        assert_eq!(color.to_simple(), simple);
        assert_eq!(color.to_eight_bit(), simple.to_eight_bit());
    }
    check(Black, Simple::Black);
    check(Red, Simple::Red);
    check(Green, Simple::Green);
    check(Yellow, Simple::Yellow);
    check(Blue, Simple::Blue);
    check(Magenta, Simple::Magenta);
    check(Cyan, Simple::Cyan);
    check(White, Simple::White);
    check(BrightBlack, Simple::BrightBlack);
    check(BrightRed, Simple::BrightRed);
    check(BrightGreen, Simple::BrightGreen);
    check(BrightYellow, Simple::BrightYellow);
    check(BrightBlue, Simple::BrightBlue);
    check(BrightMagenta, Simple::BrightMagenta);
    check(BrightCyan, Simple::BrightCyan);
    check(BrightWhite, Simple::BrightWhite);
    assert_eq!(Simple::from(Red), Simple::Red);
    assert_eq!(Simple::from(&BrightCyan), Simple::BrightCyan);
}

#[test]
fn simple_to_eight_bit_is_the_start_of_the_palette() {
    for (index, color) in ALL_SIMPLE.iter().enumerate() {
        assert_eq!(color.to_eight_bit(), EightBit::from(index as u8));
        assert_eq!(EightBit::from(index as u8).to_simple(), *color);
        assert_eq!(EightBit::from(index as u8).rgb_u8(), color.rgb_u8());
    }
}

#[test]
fn rgb_u16_and_u32_repeat_the_channel() {
    assert_eq!(True::from_rgb(0x00, 0xAB, 0xFF).rgb_u16(), (0x0000, 0xABAB, 0xFFFF));
    assert_eq!(
        True::from_rgb(0x00, 0xAB, 0xFF).rgb_u32(),
        (0x0000_0000, 0xABAB_ABAB, 0xFFFF_FFFF)
    );
    assert_eq!(Simple::Red.rgb_u16(), (0xAAAA, 0, 0));
    assert_eq!(EightBit::from(232u8).rgb_u32(), (0x0808_0808, 0x0808_0808, 0x0808_0808));
}

#[test]
fn eight_bit_codes() {
    assert_eq!(fg(&EightBit::from(0u8)), "38;5;0");
    assert_eq!(fg(&EightBit::from(9u8)), "38;5;9");
    assert_eq!(fg(&EightBit::from(10u8)), "38;5;10");
    assert_eq!(fg(&EightBit::from(99u8)), "38;5;99");
    assert_eq!(fg(&EightBit::from(100u8)), "38;5;100");
    assert_eq!(fg(&EightBit::from(109u8)), "38;5;109");
    assert_eq!(fg(&EightBit::from(200u8)), "38;5;200");
    assert_eq!(fg(&EightBit::from(255u8)), "38;5;255");
    assert_eq!(bg(&EightBit::from(7u8)), "48;5;7");
    assert_eq!(bg(&EightBit::from(255u8)), "48;5;255");
    for index in 0..=255u8 {
        assert_eq!(fg(&EightBit::from(index)), format!("38;5;{}", index));
        assert_eq!(bg(&EightBit::from(index)), format!("48;5;{}", index));
        assert_eq!(EightBit::from(index).level(), ColorLevel::EightBit);
        assert_eq!(EightBit::from(index).to_eight_bit(), EightBit::from(index));
    }
}

#[test]
fn eight_bit_rgb_at_the_borders_of_the_ranges() {
    assert_eq!(EightBit::from(15u8).rgb_u8(), (0xFF, 0xFF, 0xFF));
    assert_eq!(EightBit::from(16u8).rgb_u8(), (0, 0, 0));
    assert_eq!(EightBit::from(17u8).rgb_u8(), (0, 0, 95));
    assert_eq!(EightBit::from(22u8).rgb_u8(), (0, 95, 0));
    assert_eq!(EightBit::from(52u8).rgb_u8(), (95, 0, 0));
    assert_eq!(EightBit::from(110u8).rgb_u8(), (135, 175, 215));
    assert_eq!(EightBit::from(231u8).rgb_u8(), (255, 255, 255));
    assert_eq!(EightBit::from(232u8).rgb_u8(), (8, 8, 8));
    assert_eq!(EightBit::from(233u8).rgb_u8(), (18, 18, 18));
    assert_eq!(EightBit::from(255u8).rgb_u8(), (238, 238, 238));
}

#[test]
fn cube_and_grayscale_lookups() {
    assert_eq!(EightBit::cube_to_intensity(0), 0);
    assert_eq!(EightBit::cube_to_intensity(1), 95);
    assert_eq!(EightBit::cube_to_intensity(2), 135);
    assert_eq!(EightBit::cube_to_intensity(3), 175);
    assert_eq!(EightBit::cube_to_intensity(4), 215);
    assert_eq!(EightBit::cube_to_intensity(5), 255);
    assert_eq!(EightBit::from(232u8).grayscale_rgb_lookup(), (8, 8, 8));
    assert_eq!(EightBit::from(244u8).grayscale_rgb_lookup(), (128, 128, 128));
    assert_eq!(EightBit::from(255u8).grayscale_rgb_lookup(), (238, 238, 238));
    assert_eq!(EightBit::from(51u8).cube_rgb_lookup(), (0, 255, 255));
}

#[test]
fn eight_bit_to_simple_at_the_borders_of_the_ranges() {
    assert_eq!(EightBit::from(15u8).to_simple(), Simple::BrightWhite);
    assert_eq!(EightBit::from(16u8).to_simple(), Simple::Black);
    assert_eq!(EightBit::from(21u8).to_simple(), Simple::BrightBlue);
    assert_eq!(EightBit::from(196u8).to_simple(), Simple::BrightRed);
    assert_eq!(EightBit::from(124u8).to_simple(), Simple::Red);
    assert_eq!(EightBit::from(231u8).to_simple(), Simple::BrightWhite);
    assert_eq!(EightBit::from(232u8).to_simple(), Simple::Black);
    assert_eq!(EightBit::from(243u8).to_simple(), Simple::Black);
    assert_eq!(EightBit::from(244u8).to_simple(), Simple::White);
    assert_eq!(EightBit::from(250u8).to_simple(), Simple::White);
    assert_eq!(EightBit::from(251u8).to_simple(), Simple::BrightWhite);
    assert_eq!(EightBit::from(255u8).to_simple(), Simple::BrightWhite);
}

#[test]
fn every_cube_entry_is_found_again_from_its_rgb() {
    for index in 16..=231u8 {
        let (r, g, b) = EightBit::from(index).rgb_u8();
        assert_eq!(True::from_rgb(r, g, b).to_eight_bit(), EightBit::from(index));
    }
}

#[test]
fn full_color_to_cube_steps() {
    assert_eq!(full_color_to_cube(0), 0);
    assert_eq!(full_color_to_cube(54), 0);
    assert_eq!(full_color_to_cube(55), 0);
    assert_eq!(full_color_to_cube(94), 0);
    assert_eq!(full_color_to_cube(95), 1);
    assert_eq!(full_color_to_cube(134), 1);
    assert_eq!(full_color_to_cube(135), 2);
    assert_eq!(full_color_to_cube(175), 3);
    assert_eq!(full_color_to_cube(215), 4);
    assert_eq!(full_color_to_cube(254), 4);
    assert_eq!(full_color_to_cube(255), 5);
    assert_eq!(True::from_rgb(95, 135, 175).to_eight_bit(), EightBit::from(16 + 36 + 12 + 3));
    assert_eq!(True::from_rgb(100, 100, 100).to_eight_bit(), EightBit::from(59u8));
}

#[test]
fn true_color_codes() {
    assert_eq!(fg(&True::from_rgb(255, 0, 0)), "38;2;255;0;0");
    assert_eq!(bg(&True::from_rgb(255, 0, 0)), "48;2;255;0;0");
    assert_eq!(fg(&True::from_rgb(0, 64, 255)), "38;2;0;64;255");
    assert_eq!(bg(&True::from_rgb(1, 20, 103)), "48;2;1;20;103");
    assert_eq!(True::from_rgb(1, 2, 3).rgb_u8(), (1, 2, 3));
    assert_eq!(True::from_rgb(1, 2, 3).level(), ColorLevel::True);
    assert_eq!(True::from_rgb(1, 2, 3), True { r: 1, g: 2, b: 3 });
}

#[test]
fn from_hex_long_forms() {
    let expected = Ok(True::from_rgb(0xAA, 0xBB, 0xCC));
    assert_eq!(True::from_hex("#AABBCC"), expected);
    assert_eq!(True::from_hex("#aabbcc"), expected);
    assert_eq!(True::from_hex("aabbcc"), expected);
    assert_eq!(True::from_hex("AaBbCc"), expected);
    assert_eq!(True::from_hex("#000000"), Ok(True::from_rgb(0, 0, 0)));
    assert_eq!(True::from_hex("ffffff"), Ok(True::from_rgb(255, 255, 255)));
    assert_eq!(True::from_hex("#0140fF"), Ok(True::from_rgb(1, 64, 255)));
    assert_eq!(True::from_hex("123456"), Ok(True::from_rgb(0x12, 0x34, 0x56)));
    assert_eq!(True::from_hex("789abc"), Ok(True::from_rgb(0x78, 0x9A, 0xBC)));
    assert_eq!(True::from_hex("DEF019"), Ok(True::from_rgb(0xDE, 0xF0, 0x19)));
}

#[test]
fn from_hex_short_forms() {
    assert_eq!(True::from_hex("abc"), Ok(True::from_rgb(0xAA, 0xBB, 0xCC)));
    assert_eq!(True::from_hex("#abc"), Ok(True::from_rgb(0xAA, 0xBB, 0xCC)));
    assert_eq!(True::from_hex("#ABC"), Ok(True::from_rgb(0xAA, 0xBB, 0xCC)));
    assert_eq!(True::from_hex("000"), Ok(True::from_rgb(0, 0, 0)));
    assert_eq!(True::from_hex("fff"), Ok(True::from_rgb(255, 255, 255)));
    assert_eq!(True::from_hex("19F"), Ok(True::from_rgb(0x11, 0x99, 0xFF)));
    assert_eq!(True::from_hex_short("0d7"), Ok(True::from_rgb(0x00, 0xDD, 0x77)));
    assert_eq!(True::from_hex_long("0d7e2F"), Ok(True::from_rgb(0x0D, 0x7E, 0x2F)));
}

#[test]
fn from_hex_of_a_wrong_length() {
    assert_eq!(True::from_hex("not a hex value"), Err(ParseError::InvalidLength));
    assert_eq!(True::from_hex(""), Err(ParseError::InvalidLength));
    assert_eq!(True::from_hex("#"), Err(ParseError::InvalidLength));
    assert_eq!(True::from_hex("ab"), Err(ParseError::InvalidLength));
    assert_eq!(True::from_hex("abcd"), Err(ParseError::InvalidLength));
    assert_eq!(True::from_hex("abcde"), Err(ParseError::InvalidLength));
    assert_eq!(True::from_hex("abcdef0"), Err(ParseError::InvalidLength));
    assert_eq!(True::from_hex("##abc"), Err(ParseError::InvalidLength));
    assert_eq!(True::from_hex("#ab"), Err(ParseError::InvalidLength));
    assert_eq!(True::from_hex("abc#"), Err(ParseError::InvalidLength));
}

#[test]
fn from_hex_of_a_wrong_digit() {
    assert_eq!(True::from_hex("xyz"), Err(ParseError::InvalidDigit));
    assert_eq!(True::from_hex("#ggg"), Err(ParseError::InvalidDigit));
    assert_eq!(True::from_hex("abcdeg"), Err(ParseError::InvalidDigit));
    assert_eq!(True::from_hex("#12345G"), Err(ParseError::InvalidDigit));
    assert_eq!(True::from_hex("a c"), Err(ParseError::InvalidDigit));
    assert_eq!(True::from_hex("+f+f+f"), Err(ParseError::InvalidDigit));
    assert_eq!(True::from_hex("-1a"), Err(ParseError::InvalidDigit));
    assert_eq!(True::from_hex("ab#"), Err(ParseError::InvalidDigit));
    assert_eq!(True::from_hex("##ab"), Err(ParseError::InvalidDigit));
    assert_eq!(True::from_hex("a\u{e9}c"), Err(ParseError::InvalidDigit));
    assert_eq!(True::from_hex("#\u{ff11}\u{ff12}\u{ff13}"), Err(ParseError::InvalidDigit));
    assert_eq!(True::from_hex("/:@"), Err(ParseError::InvalidDigit));
    assert_eq!(True::from_hex("G`g"), Err(ParseError::InvalidDigit));
}

#[test]
fn parse_error_messages() {
    assert_eq!(ParseError::InvalidLength.message(), "Invalid length");
    assert_eq!(ParseError::InvalidDigit.message(), "invalid digit found in string");
}

#[test]
fn colors_unify_the_color_types() {
    let red = Colors::new_red();
    assert_eq!(red, Colors::Simple(Simple::Red));
    assert_eq!(fg(&red), "31");
    assert_eq!(bg(&red), "41");
    assert_eq!(red.level(), ColorLevel::Simple);
    assert_eq!(red.rgb_u8(), (0xAA, 0, 0));
    assert_eq!(red.to_simple(), Simple::Red);
    assert_eq!(red.to_eight_bit(), EightBit::from(1u8));

    let index = Colors::new_eight_bit(196);
    assert_eq!(index, Colors::EightBit(EightBit::from(196u8)));
    assert_eq!(fg(&index), "38;5;196");
    assert_eq!(bg(&index), "48;5;196");
    assert_eq!(index.level(), ColorLevel::EightBit);
    assert_eq!(index.rgb_u8(), (255, 0, 0));
    assert_eq!(index.to_simple(), Simple::BrightRed);
    assert_eq!(index.to_eight_bit(), EightBit::from(196u8));

    let rgb = Colors::new_true_color(0, 255, 255);
    assert_eq!(rgb, Colors::True(True::from_rgb(0, 255, 255)));
    assert_eq!(fg(&rgb), "38;2;0;255;255");
    assert_eq!(bg(&rgb), "48;2;0;255;255");
    assert_eq!(rgb.level(), ColorLevel::True);
    assert_eq!(rgb.rgb_u8(), (0, 255, 255));
    assert_eq!(rgb.to_simple(), Simple::BrightCyan);
    assert_eq!(rgb.to_eight_bit(), EightBit::from(51u8));

    assert_eq!(Colors::from(Simple::Blue), Colors::Simple(Simple::Blue));
    assert_eq!(Colors::from(EightBit::from(3u8)), Colors::new_eight_bit(3));
    assert_eq!(Colors::from(True::from_rgb(1, 2, 3)), Colors::new_true_color(1, 2, 3));
}

#[test]
fn colors_constructors_for_the_simple_colors() {
    assert_eq!(Colors::new_black(), Colors::Simple(Simple::Black));
    assert_eq!(Colors::new_red(), Colors::Simple(Simple::Red));
    assert_eq!(Colors::new_green(), Colors::Simple(Simple::Green));
    assert_eq!(Colors::new_blue(), Colors::Simple(Simple::Blue));
    assert_eq!(Colors::new_yellow(), Colors::Simple(Simple::Yellow));
    assert_eq!(Colors::new_cyan(), Colors::Simple(Simple::Cyan));
    assert_eq!(Colors::new_magenta(), Colors::Simple(Simple::Magenta));
    assert_eq!(Colors::new_white(), Colors::Simple(Simple::White));
    assert_eq!(Colors::new_bright_black(), Colors::Simple(Simple::BrightBlack));
    assert_eq!(Colors::new_bright_red(), Colors::Simple(Simple::BrightRed));
    assert_eq!(Colors::new_bright_green(), Colors::Simple(Simple::BrightGreen));
    assert_eq!(Colors::new_bright_blue(), Colors::Simple(Simple::BrightBlue));
    assert_eq!(Colors::new_bright_yellow(), Colors::Simple(Simple::BrightYellow));
    assert_eq!(Colors::new_bright_cyan(), Colors::Simple(Simple::BrightCyan));
    assert_eq!(Colors::new_bright_magenta(), Colors::Simple(Simple::BrightMagenta));
    assert_eq!(Colors::new_bright_white(), Colors::Simple(Simple::BrightWhite));
}
