use peniko::{Color, ParseError};

#[test]
fn parse_named_colors() {
    assert_eq!(Color::parse("red"), Ok(Color::rgba8(255, 0, 0, 255)));
    assert_eq!(Color::parse("lime"), Ok(Color::rgba8(0, 255, 0, 255)));
    assert_eq!(Color::parse("blue"), Ok(Color::rgba8(0, 0, 255, 255)));
    assert_eq!(Color::parse("aliceblue"), Ok(Color::rgba8(240, 248, 255, 255)));
    assert_eq!(Color::parse("yellowgreen"), Ok(Color::rgba8(154, 205, 50, 255)));
    assert_eq!(Color::parse("transparent"), Ok(Color::rgba8(0, 0, 0, 0)));
    assert_eq!(Color::parse("rebeccapurple"), Ok(Color::rgba8(102, 51, 153, 255)));
}

#[test]
fn parse_trims_whitespace() {
    assert_eq!(Color::parse("  red\t\n"), Ok(Color::rgba8(255, 0, 0, 255)));
    assert_eq!(Color::parse(" #00ff00 "), Ok(Color::rgba8(0, 255, 0, 255)));
    // Unicode whitespace: no-break space, em space, ideographic space
    assert_eq!(Color::parse("\u{00a0}red\u{2003}"), Ok(Color::rgba8(255, 0, 0, 255)));
    assert_eq!(Color::parse("\u{3000}#00ff00\u{2028}"), Ok(Color::rgba8(0, 255, 0, 255)));
    assert_eq!(Color::parse("\u{1680}\u{205f}blue"), Ok(Color::rgba8(0, 0, 255, 255)));
}

#[test]
fn parse_hex_forms() {
    assert_eq!(Color::parse("#abc"), Ok(Color::rgba8(0xaa, 0xbb, 0xcc, 255)));
    assert_eq!(Color::parse("#abcd"), Ok(Color::rgba8(0xaa, 0xbb, 0xcc, 0xdd)));
    assert_eq!(Color::parse("#12345f"), Ok(Color::rgba8(0x12, 0x34, 0x5f, 255)));
    assert_eq!(Color::parse("#12345f80"), Ok(Color::rgba8(0x12, 0x34, 0x5f, 0x80)));
    assert_eq!(Color::parse("#FFAA00"), Ok(Color::rgba8(255, 170, 0, 255)));
}

#[test]
fn parse_rejects_bad_lengths() {
    assert_eq!(Color::parse("#"), Err(ParseError::InvalidLength));
    assert_eq!(Color::parse("#ab"), Err(ParseError::InvalidLength));
    assert_eq!(Color::parse("#abcde"), Err(ParseError::InvalidLength));
    assert_eq!(Color::parse("#123456789"), Err(ParseError::InvalidLength));
}

#[test]
fn parse_rejects_bad_hex_digits() {
    // the three-digit form doubles each digit before checking, so the bad
    // digit 'g' of "#1g3" is reported at index 2 of the expanded channels
    assert_eq!(
        Color::parse("#1g3"),
        Err(ParseError::InvalidHexDigit { ch: 'g', index: 2 })
    );
    assert_eq!(
        Color::parse("#12345x"),
        Err(ParseError::InvalidHexDigit { ch: 'x', index: 5 })
    );
}

#[test]
fn parse_rejects_unknown_names() {
    assert_eq!(Color::parse("no-such-color"), Err(ParseError::InvalidColorName));
    assert_eq!(Color::parse(""), Err(ParseError::InvalidColorName));
    assert_eq!(Color::parse("   "), Err(ParseError::InvalidColorName));
    assert_eq!(Color::parse("RED"), Err(ParseError::InvalidColorName));
}

#[test]
fn hex_channel_helpers() {
    assert_eq!(peniko::hex_from_ascii_byte(b'0'), Ok(0));
    assert_eq!(peniko::hex_from_ascii_byte(b'9'), Ok(9));
    assert_eq!(peniko::hex_from_ascii_byte(b'A'), Ok(10));
    assert_eq!(peniko::hex_from_ascii_byte(b'f'), Ok(15));
    assert_eq!(peniko::hex_from_ascii_byte(b'g'), Err(b'g'));

    assert_eq!(
        peniko::get_4bit_hex_channels("123456"),
        Ok([1, 2, 3, 4, 5, 6, 15, 15])
    );
    assert_eq!(
        peniko::get_4bit_hex_channels("#1f3"),
        Ok([1, 1, 15, 15, 3, 3, 15, 15])
    );
    assert_eq!(
        peniko::color_from_4bit_hex([1, 2, 3, 4, 5, 6, 15, 15]),
        Color::rgba8(0x12, 0x34, 0x56, 0xff)
    );
}

#[test]
fn premultiply_rounds_to_nearest() {
    let c = Color::rgba8(255, 128, 0, 128);
    let p = c.to_premul();
    // 255 * 128 / 255 = 128; 128 * 128 / 255 = 64.25 rounds to 64
    assert_eq!(p, Color::rgba8(128, 64, 0, 128));

    let opaque = Color::rgba8(10, 20, 30, 255);
    assert_eq!(opaque.to_premul(), opaque);

    let clear = Color::rgba8(10, 20, 30, 0);
    assert_eq!(clear.to_premul(), Color::rgba8(0, 0, 0, 0));
}

#[test]
fn separate_undoes_premultiplication() {
    let p = Color::rgba8(128, 64, 0, 128);
    // 255 * 128 / 128 = 255; 255 * 64 / 128 = 127.5, the exact half
    // rounds down to 127
    assert_eq!(p.to_separate(), Color::rgba8(255, 127, 0, 128));

    // 255 * 1 / 2 = 127.5 rounds down; 255 * 1 / 3 = 85 exactly
    assert_eq!(Color::rgba8(1, 0, 0, 2).to_separate(), Color::rgba8(127, 0, 0, 2));
    assert_eq!(Color::rgba8(1, 0, 0, 3).to_separate(), Color::rgba8(85, 0, 0, 3));

    // zero alpha saturates non-zero channels
    assert_eq!(
        Color::rgba8(3, 0, 9, 0).to_separate(),
        Color::rgba8(255, 0, 255, 0)
    );
}

#[test]
fn premul_u32_packs_channels() {
    let c = Color::rgba8(0x10, 0x20, 0x30, 0xff);
    assert_eq!(c.to_premul_u32(), 0x102030ff);

    let t = Color::rgba8(0x10, 0x20, 0x30, 0x00);
    assert_eq!(t.to_premul_u32(), 0x00000000);
}
