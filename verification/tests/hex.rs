use gpui_embed::color::Rgba8;
use gpui_embed::hex::{Channel, HexColorError};

fn parse(s: &str) -> Result<Rgba8, HexColorError> {
    Rgba8::parse_hex(s)
}

#[test]
fn parses_all_four_forms() {
    assert_eq!(parse("#fff"), Ok(Rgba8::new(255, 255, 255, 255)));
    assert_eq!(parse("#f00a"), Ok(Rgba8::new(255, 0, 0, 0xaa)));
    assert_eq!(parse("#ff0099"), Ok(Rgba8::new(0xff, 0x00, 0x99, 0xff)));
    assert_eq!(parse("#ff009980"), Ok(Rgba8::new(0xff, 0x00, 0x99, 0x80)));
}

#[test]
fn short_form_widens_each_digit() {
    assert_eq!(parse("#1a9"), parse("#11aa99"));
    assert_eq!(parse("#1a95"), Ok(Rgba8::new(0x11, 0xaa, 0x99, 0x55)));
}

#[test]
fn digits_of_either_case() {
    assert_eq!(parse("#FF0099"), parse("#ff0099"));
    assert_eq!(parse("#AbCdEf12"), Ok(Rgba8::new(0xab, 0xcd, 0xef, 0x12)));
}

#[test]
fn surrounding_whitespace_is_trimmed() {
    assert_eq!(parse("  #abc\n"), Ok(Rgba8::new(0xaa, 0xbb, 0xcc, 0xff)));
    assert_eq!(parse("\u{a0}#abc\u{3000}"), Ok(Rgba8::new(0xaa, 0xbb, 0xcc, 0xff)));
    assert_eq!(parse("\t#00000000 "), Ok(Rgba8::new(0, 0, 0, 0)));
}

#[test]
fn rejects_bad_format() {
    assert_eq!(parse(""), Err(HexColorError::InvalidFormat));
    assert_eq!(parse("ff0099"), Err(HexColorError::InvalidFormat));
    assert_eq!(parse("x#fff"), Err(HexColorError::InvalidFormat));
    assert_eq!(parse("#"), Err(HexColorError::InvalidFormat));
    assert_eq!(parse("#12"), Err(HexColorError::InvalidFormat));
    assert_eq!(parse("#12345"), Err(HexColorError::InvalidFormat));
    assert_eq!(parse("#1234567"), Err(HexColorError::InvalidFormat));
    assert_eq!(parse("#123456789"), Err(HexColorError::InvalidFormat));
    assert_eq!(parse("# fff"), Err(HexColorError::InvalidDigit));
}

#[test]
fn rejects_bad_digits() {
    assert_eq!(parse("#ggg"), Err(HexColorError::InvalidDigit));
    assert_eq!(parse("##fff"), Err(HexColorError::InvalidDigit));
    assert_eq!(parse("#ff00zz"), Err(HexColorError::InvalidDigit));
    assert_eq!(parse("#-f0000"), Err(HexColorError::InvalidDigit));
    assert_eq!(parse("#+ff"), Err(HexColorError::InvalidDigit));
}

#[test]
fn a_sign_is_no_digit() {
    assert_eq!(parse("#+f0000"), Err(HexColorError::InvalidDigit));
    assert_eq!(parse("#00+a00+1"), Err(HexColorError::InvalidDigit));
    assert_eq!(parse("#+f+f+f"), Err(HexColorError::InvalidDigit));
    assert_eq!(parse("#+ff"), Err(HexColorError::InvalidDigit));
}

#[test]
fn texts_outside_the_schema_pattern_are_refused() {
    for s in ["fff", "#ff", "#fffff", "#fffffffff", "#ggg", "#+fff", "#-fff", "#ff ff", "#é00", "x#fff"] {
        assert!(parse(s).is_err(), "{s}");
    }
}

#[test]
fn multi_byte_characters() {
    // 'é' is two bytes: as a one-byte channel it is cut in two.
    assert_eq!(parse("#é00"), Err(HexColorError::InvalidUnicode(Channel::Red)));
    assert_eq!(parse("#0é0"), Err(HexColorError::InvalidUnicode(Channel::Green)));
    // As a whole two-byte channel it is read, and is no digit.
    assert_eq!(parse("#éé00"), Err(HexColorError::InvalidDigit));
    // '€' is three bytes.
    assert_eq!(parse("#€000"), Err(HexColorError::InvalidUnicode(Channel::Red)));
    assert_eq!(parse("#00€0"), Err(HexColorError::InvalidUnicode(Channel::Green)));
}

#[test]
fn writes_lowercase_rrggbbaa() {
    assert_eq!(Rgba8::new(0xff, 0x00, 0x99, 0xff).to_hex_string(), "#ff0099ff");
    assert_eq!(Rgba8::new(0x0a, 0xbc, 0x01, 0x00).to_hex_string(), "#0abc0100");
}

#[test]
fn written_notation_reads_back() {
    for c in [
        Rgba8::new(0, 0, 0, 0),
        Rgba8::new(255, 255, 255, 255),
        Rgba8::new(0x12, 0xab, 0xcd, 0xef),
        Rgba8::new(0xdc, 0x26, 0x26, 0xff),
    ] {
        assert_eq!(parse(&c.to_hex_string()), Ok(c));
    }
}

#[test]
fn texts_of_the_schema_pattern_are_read() {
    for s in ["#abc", "#ABCD", "#012345", "#89abCDEF", "#000", "#FfFfFfFf"] {
        assert!(parse(s).is_ok(), "{s}");
    }
}

#[test]
fn whitespace_around_never_changes_the_result() {
    for s in ["#abc", "#12", "nope", "#é00", "#ff00ff00", ""] {
        let padded = format!(" \t\u{2003}{s}\u{85}\n ");
        assert_eq!(parse(&padded), parse(s), "{s:?}");
    }
}
