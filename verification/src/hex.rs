//! The CSS-style hex notation of colors: `#rgb`, `#rgba`, `#rrggbb` and
//! `#rrggbbaa`, read from text and written back.

use vstd::prelude::*;

use crate::color::{rgb_from_u32, rgba_from_u32, Rgba8};

verus! {

/// The channel whose digits a parse error refers to.
#[derive(Clone, Copy, Debug, PartialEq, Eq, Structural)]
pub enum Channel {
    /// The red channel.
    Red,
    /// The green channel.
    Green,
    /// The blue channel.
    Blue,
    /// The alpha channel.
    Alpha,
}

/// Why a text is not a hex color.
#[derive(Clone, Copy, Debug, PartialEq, Eq, Structural)]
pub enum HexColorError {
    /// The trimmed text does not start with `#`, or is not followed by 3, 4,
    /// 6 or 8 bytes.
    InvalidFormat,
    /// The digits of the channel would cut a multi-byte character in two.
    InvalidUnicode(Channel),
    /// The digits of a channel are not a hexadecimal number.
    InvalidDigit,
}

/// Whether `c` has Unicode's `White_Space` property.
pub open spec fn is_white_space(c: char) -> bool {
    let u: u32 = c as u32;
    ||| 0x09 <= u <= 0x0d
    ||| u == 0x20
    ||| u == 0x85
    ||| u == 0xa0
    ||| u == 0x1680
    ||| 0x2000 <= u <= 0x200a
    ||| u == 0x2028
    ||| u == 0x2029
    ||| u == 0x202f
    ||| u == 0x205f
    ||| u == 0x3000
}

/// `s` without its leading whitespace.
pub open spec fn trim_start(s: Seq<char>) -> Seq<char>
    decreases s.len(),
{
    if s.len() > 0 && is_white_space(s[0]) {
        trim_start(s.drop_first())
    } else {
        s
    }
}

/// `s` without its trailing whitespace.
pub open spec fn trim_end(s: Seq<char>) -> Seq<char>
    decreases s.len(),
{
    if s.len() > 0 && is_white_space(s.last()) {
        trim_end(s.drop_last())
    } else {
        s
    }
}

/// `s` without its leading and trailing whitespace.
pub open spec fn trim_white_space(s: Seq<char>) -> Seq<char> {
    trim_end(trim_start(s))
}

/// `str::trim`: the part of `s` left when the leading and trailing chars
/// with Unicode's `White_Space` property are removed.
#[verifier::external_body]
fn trim_str(s: &str) -> (t: &str)
    ensures
        t@ == trim_white_space(s@),
{
    s.trim()
}

/// The value of an ASCII hexadecimal digit of either case.
pub open spec fn hex_digit_value(b: u8) -> Option<u8> {
    if 0x30 <= b <= 0x39 {
        Some((b - 0x30) as u8)
    } else if 0x61 <= b <= 0x66 {
        Some((b - 0x61 + 10) as u8)
    } else if 0x41 <= b <= 0x46 {
        Some((b - 0x41 + 10) as u8)
    } else {
        None
    }
}

/// The value of one or two hexadecimal digits; any other byte, a sign
/// included, makes the channel unreadable.
pub open spec fn parse_radix16_u8(s: Seq<u8>) -> Option<u8> {
    if s.len() == 1 {
        hex_digit_value(s[0])
    } else if s.len() == 2 {
        match (hex_digit_value(s[0]), hex_digit_value(s[1])) {
            (Some(hi), Some(lo)) => Some((hi * 16 + lo) as u8),
            _ => None,
        }
    } else {
        None
    }
}

/// Whether byte offset `i` of the UTF-8 text `s` starts a char or is its end.
pub open spec fn is_boundary(s: Seq<u8>, i: int) -> bool {
    i == s.len() || (0 <= i < s.len() && !(0x80 <= s[i] <= 0xbf))
}

/// The channel written in bytes `start..end` of `hex`.
pub open spec fn spec_component(hex: Seq<u8>, start: int, end: int, channel: Channel) -> Result<
    u8,
    HexColorError,
> {
    if !(is_boundary(hex, start) && is_boundary(hex, end)) {
        Err(HexColorError::InvalidUnicode(channel))
    } else {
        match parse_radix16_u8(hex.subrange(start, end)) {
            Some(v) => Ok(v),
            None => Err(HexColorError::InvalidDigit),
        }
    }
}

/// A one-digit channel `d` stands for `dd`.
pub open spec fn widen_nibble(d: u8) -> u8 {
    (d * 17) as u8
}

/// The color written by the digits `hex` that follow `#`; channels are read
/// in the order red, green, blue, alpha, and the first failure is reported.
pub open spec fn spec_parse_digits(hex: Seq<u8>) -> Result<Rgba8, HexColorError> {
    let n: nat = hex.len();
    if n == 3 || n == 4 {
        match spec_component(hex, 0, 1, Channel::Red) {
            Err(e) => Err(e),
            Ok(r) => match spec_component(hex, 1, 2, Channel::Green) {
                Err(e) => Err(e),
                Ok(g) => match spec_component(hex, 2, 3, Channel::Blue) {
                    Err(e) => Err(e),
                    Ok(b) => if n == 4 {
                        match spec_component(hex, 3, 4, Channel::Alpha) {
                            Err(e) => Err(e),
                            Ok(a) => Ok(
                                Rgba8 {
                                    r: widen_nibble(r),
                                    g: widen_nibble(g),
                                    b: widen_nibble(b),
                                    a: widen_nibble(a),
                                },
                            ),
                        }
                    } else {
                        Ok(
                            Rgba8 {
                                r: widen_nibble(r),
                                g: widen_nibble(g),
                                b: widen_nibble(b),
                                a: 0xff,
                            },
                        )
                    },
                },
            },
        }
    } else if n == 6 || n == 8 {
        match spec_component(hex, 0, 2, Channel::Red) {
            Err(e) => Err(e),
            Ok(r) => match spec_component(hex, 2, 4, Channel::Green) {
                Err(e) => Err(e),
                Ok(g) => match spec_component(hex, 4, 6, Channel::Blue) {
                    Err(e) => Err(e),
                    Ok(b) => if n == 8 {
                        match spec_component(hex, 6, 8, Channel::Alpha) {
                            Err(e) => Err(e),
                            Ok(a) => Ok(Rgba8 { r, g, b, a }),
                        }
                    } else {
                        Ok(Rgba8 { r, g, b, a: 0xff })
                    },
                },
            },
        }
    } else {
        Err(HexColorError::InvalidFormat)
    }
}

/// The color written by the UTF-8 bytes of an already trimmed text.
pub open spec fn spec_parse_trimmed(bytes: Seq<u8>) -> Result<Rgba8, HexColorError> {
    if bytes.len() > 0 && bytes[0] == 0x23 {
        spec_parse_digits(bytes.drop_first())
    } else {
        Err(HexColorError::InvalidFormat)
    }
}

/// The color that the text `value` writes in hex notation, surrounding
/// whitespace allowed.
pub open spec fn spec_parse_hex(value: Seq<char>) -> Result<Rgba8, HexColorError> {
    spec_parse_trimmed(vstd::utf8::encode_utf8(trim_white_space(value)))
}

fn is_boundary_at(bytes: &[u8], i: usize) -> (b: bool)
    requires
        1 <= i <= bytes@.len(),
    ensures
        b == is_boundary(bytes@.drop_first(), i - 1),
{
    i == bytes.len() || !(0x80 <= bytes[i] && bytes[i] <= 0xbf)
}

fn hex_digit(b: u8) -> (v: Option<u8>)
    ensures
        v == hex_digit_value(b),
{
    if 0x30 <= b && b <= 0x39 {
        Some(b - 0x30)
    } else if 0x61 <= b && b <= 0x66 {
        Some(b - 0x61 + 10)
    } else if 0x41 <= b && b <= 0x46 {
        Some(b - 0x41 + 10)
    } else {
        None
    }
}

/// Reads the channel in bytes `start..end` of the digits that follow the
/// leading `#` of `bytes`.
fn parse_component(bytes: &[u8], start: usize, end: usize, channel: Channel) -> (res: Result<
    u8,
    HexColorError,
>)
    requires
        1 <= start < end <= bytes@.len(),
        end - start <= 2,
    ensures
        res == spec_component(bytes@.drop_first(), start - 1, end - 1, channel),
{
    let ghost hex = bytes@.drop_first();
    if !(is_boundary_at(bytes, start) && is_boundary_at(bytes, end)) {
        return Err(HexColorError::InvalidUnicode(channel));
    }
    let ghost digits = hex.subrange(start - 1, end - 1);
    if end - start == 1 {
        assert(digits =~= seq![bytes@[start as int]]);
        match hex_digit(bytes[start]) {
            Some(v) => Ok(v),
            None => Err(HexColorError::InvalidDigit),
        }
    } else {
        assert(digits =~= seq![bytes@[start as int], bytes@[start + 1]]);
        match (hex_digit(bytes[start]), hex_digit(bytes[start + 1])) {
            (Some(hi), Some(lo)) => Ok(hi * 16 + lo),
            _ => Err(HexColorError::InvalidDigit),
        }
    }
}

/// Reads the color written after the leading `#` of `bytes`.
fn parse_digits(bytes: &[u8]) -> (res: Result<Rgba8, HexColorError>)
    requires
        bytes@.len() >= 1,
    ensures
        res == spec_parse_digits(bytes@.drop_first()),
{
    let n: usize = bytes.len() - 1;
    if n == 3 || n == 4 {
        let r: u8 = match parse_component(bytes, 1, 2, Channel::Red) {
            Ok(v) => v,
            Err(e) => return Err(e),
        };
        let g: u8 = match parse_component(bytes, 2, 3, Channel::Green) {
            Ok(v) => v,
            Err(e) => return Err(e),
        };
        let b: u8 = match parse_component(bytes, 3, 4, Channel::Blue) {
            Ok(v) => v,
            Err(e) => return Err(e),
        };
        let a: u8 = if n == 4 {
            match parse_component(bytes, 4, 5, Channel::Alpha) {
                Ok(v) => {
                    proof {
                        lemma_widen_nibble(v);
                    }
                    (v << 4u8) | v
                },
                Err(e) => return Err(e),
            }
        } else {
            0xff
        };
        proof {
            lemma_widen_nibble(r);
            lemma_widen_nibble(g);
            lemma_widen_nibble(b);
        }
        Ok(Rgba8 { r: (r << 4u8) | r, g: (g << 4u8) | g, b: (b << 4u8) | b, a })
    } else if n == 6 || n == 8 {
        let r: u8 = match parse_component(bytes, 1, 3, Channel::Red) {
            Ok(v) => v,
            Err(e) => return Err(e),
        };
        let g: u8 = match parse_component(bytes, 3, 5, Channel::Green) {
            Ok(v) => v,
            Err(e) => return Err(e),
        };
        let b: u8 = match parse_component(bytes, 5, 7, Channel::Blue) {
            Ok(v) => v,
            Err(e) => return Err(e),
        };
        let a: u8 = if n == 8 {
            match parse_component(bytes, 7, 9, Channel::Alpha) {
                Ok(v) => v,
                Err(e) => return Err(e),
            }
        } else {
            0xff
        };
        Ok(Rgba8 { r, g, b, a })
    } else {
        Err(HexColorError::InvalidFormat)
    }
}

proof fn lemma_widen_nibble(d: u8)
    requires
        d < 16,
    ensures
        (d << 4u8) | d == widen_nibble(d),
{
    assert((d << 4u8) | d == d * 17) by (bit_vector)
        requires
            d < 16,
    ;
}

/// The lowercase hexadecimal digit of `n`, for `0 <= n < 16`.
pub open spec fn hex_digit_char(n: int) -> char {
    if n < 10 {
        (0x30 + n) as char
    } else {
        (0x61 + n - 10) as char
    }
}

/// Two lowercase hexadecimal digits for `v`.
pub open spec fn hex_byte_chars(v: u8) -> Seq<char> {
    seq![hex_digit_char(v as int / 16), hex_digit_char(v as int % 16)]
}

/// `c` written as `#rrggbbaa` in lowercase digits.
pub open spec fn hex_notation(c: Rgba8) -> Seq<char> {
    seq!['#'] + hex_byte_chars(c.r) + hex_byte_chars(c.g) + hex_byte_chars(c.b) + hex_byte_chars(
        c.a,
    )
}

/// The lowercase hexadecimal digit of `n` as a one-char text.
fn hex_digit_str(n: u8) -> (s: &'static str)
    requires
        n < 16,
    ensures
        s@ == seq![hex_digit_char(n as int)],
{
    let digits = "0123456789abcdef";
    proof {
        reveal_strlit("0123456789abcdef");
    }
    let s = digits.substring_ascii(n as usize, n as usize + 1);
    assert(s@ =~= seq![hex_digit_char(n as int)]);
    s
}

/// Appends the two lowercase hexadecimal digits of `v` to `out`.
fn push_hex_byte(out: &mut String, v: u8)
    ensures
        final(out)@ == old(out)@ + hex_byte_chars(v),
{
    out.append(hex_digit_str(v / 16));
    out.append(hex_digit_str(v % 16));
    assert(final(out)@ =~= old(out)@ + hex_byte_chars(v));
}

impl Rgba8 {
    /// Writes the color as `#rrggbbaa` in lowercase digits.
    pub fn to_hex_string(&self) -> (s: String)
        ensures
            s@ == hex_notation(*self),
    {
        let mut s = String::from_str("#");
        proof {
            reveal_strlit("#");
        }
        push_hex_byte(&mut s, self.r);
        push_hex_byte(&mut s, self.g);
        push_hex_byte(&mut s, self.b);
        push_hex_byte(&mut s, self.a);
        s
    }

    /// Reads a color written as `#rgb`, `#rgba`, `#rrggbb` or `#rrggbbaa`
    /// with digits of either case, surrounding whitespace allowed. A one-digit
    /// channel `d` stands for `dd`; a missing alpha channel is opaque.
    pub fn parse_hex(value: &str) -> (res: Result<Rgba8, HexColorError>)
        ensures
            res == spec_parse_hex(value@),
            res is Ok <==> matches_hex_pattern(trim_white_space(value@)),
    {
        proof {
            lemma_parse_ok_iff_pattern(value@);
        }
        let trimmed = trim_str(value);
        let bytes = trimmed.as_bytes();
        if bytes.len() > 0 && bytes[0] == 0x23 {
            parse_digits(bytes)
        } else {
            Err(HexColorError::InvalidFormat)
        }
    }
}

proof fn lemma_hex_digit_char(n: int)
    requires
        0 <= n < 16,
    ensures
        hex_digit_char(n) as u32 == (if n < 10 { 0x30 + n } else { 0x61 + n - 10 }),
        hex_digit_value(hex_digit_char(n) as u8) == Some(n as u8),
        hex_digit_char(n) as u8 == hex_digit_char(n) as u32,
        !is_white_space(hex_digit_char(n)),
        '\0' <= hex_digit_char(n) <= '\u{7f}',
{
}

/// Reading the hex notation that a color is written in gives the color back.
pub proof fn lemma_parse_hex_notation(c: Rgba8)
    ensures
        spec_parse_hex(hex_notation(c)) == Ok::<Rgba8, HexColorError>(c),
{
    let s = hex_notation(c);
    lemma_hex_notation_matches_pattern(c);
    lemma_pattern_bytes(s);
    let hex = vstd::utf8::encode_utf8(s).drop_first();
    let ds = seq![
        c.r as int / 16,
        c.r as int % 16,
        c.g as int / 16,
        c.g as int % 16,
        c.b as int / 16,
        c.b as int % 16,
        c.a as int / 16,
        c.a as int % 16,
    ];
    assert forall|k: int| 0 <= k < 8 implies hex_digit_value(#[trigger] hex[k]) == Some(
        ds[k] as u8,
    ) by {
        assert(s[k + 1] == hex_digit_char(ds[k]));
        lemma_hex_digit_char(ds[k]);
    }
    assert(hex.subrange(0, 2) =~= seq![hex[0], hex[1]]);
    assert(hex.subrange(2, 4) =~= seq![hex[2], hex[3]]);
    assert(hex.subrange(4, 6) =~= seq![hex[4], hex[5]]);
    assert(hex.subrange(6, 8) =~= seq![hex[6], hex[7]]);
}

/// Whether `c` is an ASCII hexadecimal digit of either case.
pub open spec fn is_hex_digit_char(c: char) -> bool {
    ('0' <= c <= '9') || ('a' <= c <= 'f') || ('A' <= c <= 'F')
}

/// Whether `s` matches the schema pattern of the notation,
/// `^#([0-9a-fA-F]{3}|[0-9a-fA-F]{4}|[0-9a-fA-F]{6}|[0-9a-fA-F]{8})$`.
pub open spec fn matches_hex_pattern(s: Seq<char>) -> bool {
    &&& s.len() >= 1
    &&& s[0] == '#'
    &&& s.len() - 1 == 3 || s.len() - 1 == 4 || s.len() - 1 == 6 || s.len() - 1 == 8
    &&& forall|i: int| 1 <= i < s.len() ==> is_hex_digit_char(#[trigger] s[i])
}

proof fn lemma_hex_digit_char_value(c: char)
    requires
        is_hex_digit_char(c),
    ensures
        hex_digit_value(c as u8) is Some,
        (c as u8) < 0x80,
        c as u8 == c as u32,
        !is_white_space(c),
{
}

/// Every text that matches the schema pattern of the notation is read as a
/// color.
pub proof fn lemma_pattern_parses(s: Seq<char>)
    requires
        matches_hex_pattern(s),
    ensures
        spec_parse_hex(s) is Ok,
{
    lemma_pattern_bytes(s);
    let n: int = s.len() as int;
    let hex = vstd::utf8::encode_utf8(s).drop_first();
    if n - 1 == 3 || n - 1 == 4 {
        assert(hex.subrange(0, 1) =~= seq![hex[0]]);
        assert(hex.subrange(1, 2) =~= seq![hex[1]]);
        assert(hex.subrange(2, 3) =~= seq![hex[2]]);
        if n - 1 == 4 {
            assert(hex.subrange(3, 4) =~= seq![hex[3]]);
        }
    } else {
        assert(hex.subrange(0, 2) =~= seq![hex[0], hex[1]]);
        assert(hex.subrange(2, 4) =~= seq![hex[2], hex[3]]);
        assert(hex.subrange(4, 6) =~= seq![hex[4], hex[5]]);
        if n - 1 == 8 {
            assert(hex.subrange(6, 8) =~= seq![hex[6], hex[7]]);
        }
    }
}

/// The notation that a color is written in matches the schema pattern.
pub proof fn lemma_hex_notation_matches_pattern(c: Rgba8)
    ensures
        matches_hex_pattern(hex_notation(c)),
{
    let s = hex_notation(c);
    let ds = seq![
        c.r as int / 16,
        c.r as int % 16,
        c.g as int / 16,
        c.g as int % 16,
        c.b as int / 16,
        c.b as int % 16,
        c.a as int / 16,
        c.a as int % 16,
    ];
    assert forall|i: int| 1 <= i < 9 implies is_hex_digit_char(#[trigger] s[i]) by {
        assert(s[i] == hex_digit_char(ds[i - 1]));
        lemma_hex_digit_char(ds[i - 1]);
    }
}

/// Whether every char of `s` is whitespace.
pub open spec fn all_white_space(s: Seq<char>) -> bool {
    forall|i: int| 0 <= i < s.len() ==> is_white_space(#[trigger] s[i])
}

proof fn lemma_trim_start_skips_white_prefix(pre: Seq<char>, s: Seq<char>)
    requires
        all_white_space(pre),
    ensures
        trim_start(pre + s) == trim_start(s),
    decreases pre.len(),
{
    if pre.len() == 0 {
        assert(pre + s =~= s);
    } else {
        assert((pre + s)[0] == pre[0]);
        assert((pre + s).drop_first() =~= pre.drop_first() + s);
        assert forall|i: int| 0 <= i < pre.drop_first().len() implies is_white_space(
            #[trigger] pre.drop_first()[i],
        ) by {
            assert(pre.drop_first()[i] == pre[i + 1]);
        }
        lemma_trim_start_skips_white_prefix(pre.drop_first(), s);
    }
}

proof fn lemma_trim_end_skips_white_suffix(s: Seq<char>, post: Seq<char>)
    requires
        all_white_space(post),
    ensures
        trim_end(s + post) == trim_end(s),
    decreases post.len(),
{
    if post.len() == 0 {
        assert(s + post =~= s);
    } else {
        assert((s + post).last() == post.last());
        assert((s + post).drop_last() =~= s + post.drop_last());
        assert forall|i: int| 0 <= i < post.drop_last().len() implies is_white_space(
            #[trigger] post.drop_last()[i],
        ) by {
            assert(post.drop_last()[i] == post[i]);
        }
        lemma_trim_end_skips_white_suffix(s, post.drop_last());
    }
}

proof fn lemma_trim_start_append(s: Seq<char>, post: Seq<char>)
    ensures
        trim_start(s + post) == if trim_start(s).len() > 0 {
            trim_start(s) + post
        } else {
            trim_start(post)
        },
    decreases s.len(),
{
    if s.len() == 0 {
        assert(s + post =~= post);
    } else if is_white_space(s[0]) {
        assert((s + post)[0] == s[0]);
        assert((s + post).drop_first() =~= s.drop_first() + post);
        lemma_trim_start_append(s.drop_first(), post);
    } else {
        assert((s + post)[0] == s[0]);
    }
}

/// Whitespace around a text never changes the color read from it.
pub proof fn lemma_surrounding_white_space_ignored(pre: Seq<char>, s: Seq<char>, post: Seq<char>)
    requires
        all_white_space(pre),
        all_white_space(post),
    ensures
        spec_parse_hex(pre + s + post) == spec_parse_hex(s),
{
    assert(pre + s + post =~= pre + (s + post));
    lemma_trim_start_skips_white_prefix(pre, s + post);
    lemma_trim_start_append(s, post);
    if trim_start(s).len() > 0 {
        lemma_trim_end_skips_white_suffix(trim_start(s), post);
    } else {
        lemma_trim_start_skips_white_prefix(post, Seq::<char>::empty());
        assert(post + Seq::<char>::empty() =~= post);
    }
    assert(trim_white_space(pre + s + post) == trim_white_space(s));
}

/// `#rgb` reads as `#rrggbb`, and `#rgba` as `#rrggbbaa`.
pub proof fn lemma_short_form_widens(r: char, g: char, b: char, a: char)
    requires
        is_hex_digit_char(r),
        is_hex_digit_char(g),
        is_hex_digit_char(b),
        is_hex_digit_char(a),
    ensures
        spec_parse_hex(seq!['#', r, g, b]) == spec_parse_hex(seq!['#', r, r, g, g, b, b]),
        spec_parse_hex(seq!['#', r, g, b, a]) == spec_parse_hex(seq!['#', r, r, g, g, b, b, a, a]),
{
    let s3 = seq!['#', r, g, b];
    let l3 = seq!['#', r, r, g, g, b, b];
    let s4 = seq!['#', r, g, b, a];
    let l4 = seq!['#', r, r, g, g, b, b, a, a];
    assert(matches_hex_pattern(s3)) by {
        assert forall|i: int| 1 <= i < s3.len() implies is_hex_digit_char(#[trigger] s3[i]) by {}
    }
    assert(matches_hex_pattern(l3)) by {
        assert forall|i: int| 1 <= i < l3.len() implies is_hex_digit_char(#[trigger] l3[i]) by {}
    }
    assert(matches_hex_pattern(s4)) by {
        assert forall|i: int| 1 <= i < s4.len() implies is_hex_digit_char(#[trigger] s4[i]) by {}
    }
    assert(matches_hex_pattern(l4)) by {
        assert forall|i: int| 1 <= i < l4.len() implies is_hex_digit_char(#[trigger] l4[i]) by {}
    }
    assert forall|i: int| 1 <= i < s3.len() implies l3[2 * i - 1] == s3[i] && l3[2 * i] == s3[i] by {}
    assert forall|i: int| 1 <= i < s4.len() implies l4[2 * i - 1] == s4[i] && l4[2 * i] == s4[i] by {}
    lemma_short_form_widens_one(s3, l3);
    lemma_short_form_widens_one(s4, l4);
}

proof fn lemma_short_form_widens_one(short: Seq<char>, long: Seq<char>)
    requires
        matches_hex_pattern(short),
        matches_hex_pattern(long),
        short.len() == 4 || short.len() == 5,
        long.len() == 2 * short.len() - 1,
        forall|i: int| 1 <= i < short.len() ==> long[2 * i - 1] == short[i] && long[2 * i] == short[i],
    ensures
        spec_parse_hex(short) == spec_parse_hex(long),
{
    lemma_pattern_bytes(short);
    lemma_pattern_bytes(long);
    let sh = vstd::utf8::encode_utf8(short).drop_first();
    let lh = vstd::utf8::encode_utf8(long).drop_first();
    assert forall|k: int| 0 <= k < short.len() - 1 implies #[trigger] sh.subrange(k, k + 1)
        =~= seq![sh[k]] by {}
    assert forall|k: int| 0 <= k < short.len() - 1 implies #[trigger] lh.subrange(2 * k, 2 * k + 2)
        =~= seq![lh[2 * k], lh[2 * k + 1]] by {}
    assert forall|k: int| 0 <= k < short.len() - 1 implies {
        &&& lh[2 * k] == sh[k]
        &&& lh[2 * k + 1] == sh[k]
    } by {
        assert(long[2 * (k + 1) - 1] == short[k + 1]);
        assert(long[2 * (k + 1)] == short[k + 1]);
    }
    assert forall|k: int| 0 <= k < short.len() - 1 implies {
        let v: u8 = hex_digit_value(sh[k])->0;
        &&& parse_radix16_u8(#[trigger] sh.subrange(k, k + 1)) == Some(v)
        &&& parse_radix16_u8(lh.subrange(2 * k, 2 * k + 2)) == Some((v * 16 + v) as u8)
        &&& widen_nibble(v) == (v * 16 + v) as u8
    } by {
        assert(lh.subrange(2 * k, 2 * k + 2) =~= seq![lh[2 * k], lh[2 * k + 1]]);
    }
    assert(sh.subrange(0, 1) =~= seq![sh[0]]);
    assert(sh.subrange(1, 2) =~= seq![sh[1]]);
    assert(sh.subrange(2, 3) =~= seq![sh[2]]);
    assert(lh.subrange(0, 2) =~= seq![lh[0], lh[1]]);
    assert(lh.subrange(2, 4) =~= seq![lh[2], lh[3]]);
    assert(lh.subrange(4, 6) =~= seq![lh[4], lh[5]]);
    if short.len() == 5 {
        assert(sh.subrange(3, 4) =~= seq![sh[3]]);
        assert(lh.subrange(6, 8) =~= seq![lh[6], lh[7]]);
    }
}

/// The bytes that a text of the notation's pattern is read from.
proof fn lemma_pattern_bytes(s: Seq<char>)
    requires
        matches_hex_pattern(s),
    ensures
        trim_white_space(s) == s,
        vstd::utf8::encode_utf8(s).len() == s.len(),
        vstd::utf8::encode_utf8(s)[0] == 0x23,
        forall|k: int|
            0 <= k < s.len() - 1 ==> {
                let h: u8 = #[trigger] vstd::utf8::encode_utf8(s).drop_first()[k];
                &&& h == s[k + 1] as u8
                &&& hex_digit_value(h) is Some
                &&& h < 0x80
            },
        forall|k: int|
            0 <= k <= s.len() - 1 ==> #[trigger] is_boundary(
                vstd::utf8::encode_utf8(s).drop_first(),
                k,
            ),
{
    let n: int = s.len() as int;
    assert forall|i: int| 1 <= i < n implies {
        &&& hex_digit_value(#[trigger] s[i] as u8) is Some
        &&& (s[i] as u8) < 0x80
        &&& !is_white_space(s[i])
    } by {
        lemma_hex_digit_char_value(s[i]);
    }
    assert(trim_start(s) == s);
    assert(s.last() == s[n - 1]);
    assert(trim_end(s) == s);
    assert(vstd::utf8::is_ascii_chars(s)) by {
        assert forall|i: int| 0 <= i < n implies '\0' <= #[trigger] s[i] <= '\u{7f}' by {
            if i > 0 {
                lemma_hex_digit_char_value(s[i]);
            }
        }
    }
    vstd::utf8::is_ascii_chars_encode_utf8(s);
    let bytes = vstd::utf8::encode_utf8(s);
    let hex = bytes.drop_first();
    assert forall|k: int| 0 <= k < n - 1 implies #[trigger] hex[k] == s[k + 1] as u8 by {
        assert(hex[k] == bytes[k + 1]);
    }
    assert forall|k: int| 0 <= k <= n - 1 implies #[trigger] is_boundary(hex, k) by {
        if k < n - 1 {
            assert(hex[k] == s[k + 1] as u8);
        }
    }
}

proof fn lemma_non_ascii_leading_byte(c: u32)
    requires
        !vstd::utf8::has_width_1_encoding(c),
    ensures
        vstd::utf8::encode_scalar(c)[0] >= 0x80,
{
    assert((0xC0u8 | ((c >> 6u32) & 0x1F) as u8) >= 0xC0) by (bit_vector);
    assert((0xE0u8 | ((c >> 12u32) & 0x0F) as u8) >= 0xE0) by (bit_vector);
    assert((0xF0u8 | ((c >> 18u32) & 0x7) as u8) >= 0xF0) by (bit_vector);
}

proof fn lemma_char_below_0x80(ch: char)
    requires
        vstd::utf8::has_width_1_encoding(ch as u32),
    ensures
        '\0' <= ch <= '\u{7f}',
{
}

/// Chars whose UTF-8 bytes are all below `0x80` are ASCII.
proof fn lemma_ascii_bytes_are_ascii_chars(t: Seq<char>)
    requires
        forall|i: int|
            0 <= i < vstd::utf8::encode_utf8(t).len() ==> #[trigger] vstd::utf8::encode_utf8(t)[i]
                < 0x80,
    ensures
        vstd::utf8::is_ascii_chars(t),
    decreases t.len(),
{
    if t.len() > 0 {
        let c = t[0] as u32;
        let head = vstd::utf8::encode_scalar(c);
        let rest = t.drop_first();
        let all = vstd::utf8::encode_utf8(t);
        assert(all == head + vstd::utf8::encode_utf8(rest));
        assert(head.len() >= 1);
        assert(all[0] == head[0]);
        if !vstd::utf8::has_width_1_encoding(c) {
            lemma_non_ascii_leading_byte(c);
            assert(false);
        }
        assert(head.len() == 1);
        assert forall|i: int|
            0 <= i < vstd::utf8::encode_utf8(rest).len() implies #[trigger] vstd::utf8::encode_utf8(
            rest,
        )[i] < 0x80 by {
            assert(all[i + 1] == vstd::utf8::encode_utf8(rest)[i]);
        }
        lemma_ascii_bytes_are_ascii_chars(rest);
        lemma_char_below_0x80(t[0]);
        assert forall|i: int| 0 <= i < t.len() implies '\0' <= #[trigger] t[i] <= '\u{7f}' by {
            if i > 0 {
                assert(t[i] == rest[i - 1]);
                assert('\0' <= rest[i - 1] <= '\u{7f}');
            }
        }
    }
}

/// The digits that a color is read from are all hexadecimal digits, and
/// there are 3, 4, 6 or 8 of them.
proof fn lemma_read_digits_are_hex(hex: Seq<u8>)
    requires
        spec_parse_digits(hex) is Ok,
    ensures
        hex.len() == 3 || hex.len() == 4 || hex.len() == 6 || hex.len() == 8,
        forall|i: int| 0 <= i < hex.len() ==> hex_digit_value(#[trigger] hex[i]) is Some,
{
    let n = hex.len() as int;
    if n == 3 || n == 4 {
        assert forall|i: int| 0 <= i < n implies hex_digit_value(#[trigger] hex[i]) is Some by {
            assert(hex.subrange(i, i + 1)[0] == hex[i]);
        }
    } else {
        assert forall|i: int| 0 <= i < n implies hex_digit_value(#[trigger] hex[i]) is Some by {
            let k = i - i % 2;
            assert(hex.subrange(k, k + 2)[i - k] == hex[i]);
        }
    }
}

/// A text is read as a color exactly when, without its surrounding
/// whitespace, it matches the schema pattern of the notation.
pub proof fn lemma_parse_ok_iff_pattern(s: Seq<char>)
    ensures
        spec_parse_hex(s) is Ok <==> matches_hex_pattern(trim_white_space(s)),
{
    let t = trim_white_space(s);
    if matches_hex_pattern(t) {
        lemma_pattern_bytes(t);
        lemma_pattern_parses(t);
    }
    if spec_parse_hex(s) is Ok {
        let b = vstd::utf8::encode_utf8(t);
        let hex = b.drop_first();
        assert(b.len() > 0 && b[0] == 0x23);
        lemma_read_digits_are_hex(hex);
        assert forall|i: int| 0 <= i < b.len() implies #[trigger] b[i] < 0x80 by {
            if i > 0 {
                assert(b[i] == hex[i - 1]);
            }
        }
        lemma_ascii_bytes_are_ascii_chars(t);
        vstd::utf8::is_ascii_chars_encode_utf8(t);
        assert(t[0] as u8 == 0x23);
        assert forall|i: int| 1 <= i < t.len() implies is_hex_digit_char(#[trigger] t[i]) by {
            assert(t[i] as u8 == b[i]);
            assert(b[i] == hex[i - 1]);
        }
    }
}

/// The hexadecimal digit for `0 <= n < 16`, in upper or lower case.
pub open spec fn cased_digit(n: int, upper: bool) -> char {
    if n < 10 {
        (0x30 + n) as char
    } else if upper {
        (0x41 + n - 10) as char
    } else {
        (0x61 + n - 10) as char
    }
}

/// Two digits for `v`, the first one worth sixteen times its value.
pub open spec fn cased_pair(v: u8, upper: bool) -> Seq<char> {
    seq![cased_digit(v as int / 16, upper), cased_digit(v as int % 16, upper)]
}

proof fn lemma_cased_digit(n: int, upper: bool)
    requires
        0 <= n < 16,
    ensures
        is_hex_digit_char(cased_digit(n, upper)),
        hex_digit_value(cased_digit(n, upper) as u8) == Some(n as u8),
        cased_digit(n, upper) as u8 == cased_digit(n, upper) as u32,
{
}

/// `#rrggbb` and `#rrggbbaa`, with digits of either case, read as the
/// channels they write: each channel is sixteen times its first digit plus
/// its second, and a missing alpha channel is opaque.
pub proof fn lemma_long_forms_read_channels(c: Rgba8, upper: bool)
    ensures
        spec_parse_hex(
            seq!['#'] + cased_pair(c.r, upper) + cased_pair(c.g, upper) + cased_pair(c.b, upper),
        ) == Ok::<Rgba8, HexColorError>(Rgba8 { a: 0xff, ..c }),
        spec_parse_hex(
            seq!['#'] + cased_pair(c.r, upper) + cased_pair(c.g, upper) + cased_pair(c.b, upper)
                + cased_pair(c.a, upper),
        ) == Ok::<Rgba8, HexColorError>(c),
{
    let ds = seq![
        c.r as int / 16,
        c.r as int % 16,
        c.g as int / 16,
        c.g as int % 16,
        c.b as int / 16,
        c.b as int % 16,
        c.a as int / 16,
        c.a as int % 16,
    ];
    let s6 = seq!['#'] + cased_pair(c.r, upper) + cased_pair(c.g, upper) + cased_pair(c.b, upper);
    let s8 = s6 + cased_pair(c.a, upper);
    assert forall|k: int| 0 <= k < 8 implies #[trigger] s8[k + 1] == cased_digit(ds[k], upper) by {}
    assert forall|k: int| 0 <= k < 6 implies #[trigger] s6[k + 1] == cased_digit(ds[k], upper) by {}
    assert forall|k: int| 0 <= k < 8 implies {
        &&& is_hex_digit_char(cased_digit(#[trigger] ds[k], upper))
        &&& hex_digit_value(cased_digit(ds[k], upper) as u8) == Some(ds[k] as u8)
    } by {
        lemma_cased_digit(ds[k], upper);
    }
    assert(matches_hex_pattern(s6)) by {
        assert forall|i: int| 1 <= i < s6.len() implies is_hex_digit_char(#[trigger] s6[i]) by {
            assert(s6[i] == cased_digit(ds[i - 1], upper));
        }
    }
    assert(matches_hex_pattern(s8)) by {
        assert forall|i: int| 1 <= i < s8.len() implies is_hex_digit_char(#[trigger] s8[i]) by {
            assert(s8[i] == cased_digit(ds[i - 1], upper));
        }
    }
    lemma_pattern_bytes(s6);
    lemma_pattern_bytes(s8);
    let h6 = vstd::utf8::encode_utf8(s6).drop_first();
    let h8 = vstd::utf8::encode_utf8(s8).drop_first();
    assert forall|k: int| 0 <= k < 6 implies hex_digit_value(#[trigger] h6[k]) == Some(
        ds[k] as u8,
    ) by {
        assert(h6[k] == s6[k + 1] as u8);
        assert(s6[k + 1] == cased_digit(ds[k], upper));
    }
    assert forall|k: int| 0 <= k < 8 implies hex_digit_value(#[trigger] h8[k]) == Some(
        ds[k] as u8,
    ) by {
        assert(h8[k] == s8[k + 1] as u8);
        assert(s8[k + 1] == cased_digit(ds[k], upper));
    }
    assert(h6.subrange(0, 2) =~= seq![h6[0], h6[1]]);
    assert(h6.subrange(2, 4) =~= seq![h6[2], h6[3]]);
    assert(h6.subrange(4, 6) =~= seq![h6[4], h6[5]]);
    assert(h8.subrange(0, 2) =~= seq![h8[0], h8[1]]);
    assert(h8.subrange(2, 4) =~= seq![h8[2], h8[3]]);
    assert(h8.subrange(4, 6) =~= seq![h8[4], h8[5]]);
    assert(h8.subrange(6, 8) =~= seq![h8[6], h8[7]]);
}

/// Upper- and lowercase digits write the same channels.
pub proof fn lemma_digit_case_is_ignored(c: Rgba8)
    ensures
        spec_parse_hex(
            seq!['#'] + cased_pair(c.r, true) + cased_pair(c.g, true) + cased_pair(c.b, true)
                + cased_pair(c.a, true),
        ) == spec_parse_hex(
            seq!['#'] + cased_pair(c.r, false) + cased_pair(c.g, false) + cased_pair(c.b, false)
                + cased_pair(c.a, false),
        ),
        spec_parse_hex(
            seq!['#'] + cased_pair(c.r, true) + cased_pair(c.g, true) + cased_pair(c.b, true),
        ) == spec_parse_hex(
            seq!['#'] + cased_pair(c.r, false) + cased_pair(c.g, false) + cased_pair(c.b, false),
        ),
{
    lemma_long_forms_read_channels(c, true);
    lemma_long_forms_read_channels(c, false);
}

/// The `k`-th hexadecimal digit of `x`, counted from the most significant of
/// eight.
pub open spec fn nibble_of(x: u32, k: int) -> int {
    (x as int / pow16(7 - k)) % 16
}

/// Sixteen to the power `e`, for `0 <= e < 8`.
pub open spec fn pow16(e: int) -> int {
    if e == 0 {
        1
    } else if e == 1 {
        0x10
    } else if e == 2 {
        0x100
    } else if e == 3 {
        0x1000
    } else if e == 4 {
        0x1_0000
    } else if e == 5 {
        0x10_0000
    } else if e == 6 {
        0x100_0000
    } else {
        0x1000_0000
    }
}

proof fn lemma_byte_nibbles(x: u32)
    ensures
        (x / 0x100_0000) as u8 / 16 == nibble_of(x, 0),
        (x / 0x100_0000) as u8 % 16 == nibble_of(x, 1),
        ((x / 0x1_0000) % 0x100) as u8 / 16 == nibble_of(x, 2),
        ((x / 0x1_0000) % 0x100) as u8 % 16 == nibble_of(x, 3),
        ((x / 0x100) % 0x100) as u8 / 16 == nibble_of(x, 4),
        ((x / 0x100) % 0x100) as u8 % 16 == nibble_of(x, 5),
        (x % 0x100) as u8 / 16 == nibble_of(x, 6),
        (x % 0x100) as u8 % 16 == nibble_of(x, 7),
{
    assert((x / 0x100_0000) as u8 / 16 == (x / 0x1000_0000) % 16) by (bit_vector);
    assert((x / 0x100_0000) as u8 % 16 == (x / 0x100_0000) % 16) by (bit_vector);
    assert(((x / 0x1_0000) % 0x100) as u8 / 16 == (x / 0x10_0000) % 16) by (bit_vector);
    assert(((x / 0x1_0000) % 0x100) as u8 % 16 == (x / 0x1_0000) % 16) by (bit_vector);
    assert(((x / 0x100) % 0x100) as u8 / 16 == (x / 0x1000) % 16) by (bit_vector);
    assert(((x / 0x100) % 0x100) as u8 % 16 == (x / 0x100) % 16) by (bit_vector);
    assert((x % 0x100) as u8 / 16 == (x / 0x10) % 16) by (bit_vector);
    assert((x % 0x100) as u8 % 16 == x % 16) by (bit_vector);
}

/// The eight hexadecimal digits of `x`, most significant first.
pub open spec fn hex_text_of(x: u32, upper: bool) -> Seq<char> {
    Seq::new(8, |k: int| cased_digit(nibble_of(x, k), upper))
}

/// The color packed as `0xRRGGBBAA` is the color its hexadecimal text reads
/// as, `#RRGGBBAA`; and the color of `rgb(0x__RRGGBB)` is the one that
/// `#RRGGBB`, its six lower digits, reads as.
pub proof fn lemma_packed_value_reads_as_its_hex_text(x: u32, upper: bool)
    ensures
        spec_parse_hex(seq!['#'] + hex_text_of(x, upper)) == Ok::<Rgba8, HexColorError>(
            rgba_from_u32(x),
        ),
        spec_parse_hex(seq!['#'] + hex_text_of(x, upper).subrange(2, 8)) == Ok::<
            Rgba8,
            HexColorError,
        >(rgb_from_u32(x)),
{
    lemma_byte_nibbles(x);
    let c = rgba_from_u32(x);
    let t = hex_text_of(x, upper);
    lemma_long_forms_read_channels(c, upper);
    assert(seq!['#'] + t =~= seq!['#'] + cased_pair(c.r, upper) + cased_pair(c.g, upper)
        + cased_pair(c.b, upper) + cased_pair(c.a, upper));
    let c2 = Rgba8 { r: c.g, g: c.b, b: c.a, a: 0xff };
    lemma_long_forms_read_channels(c2, upper);
    assert(seq!['#'] + t.subrange(2, 8) =~= seq!['#'] + cased_pair(c2.r, upper) + cased_pair(
        c2.g,
        upper,
    ) + cased_pair(c2.b, upper));
    assert(rgb_from_u32(x) == Rgba8 { a: 0xff, ..c2 });
}

/// The written notation is `#` and two lowercase digits per channel, in the
/// order red, green, blue, alpha, the first digit of each worth sixteen.
pub proof fn lemma_hex_notation_is_lowercase_pairs(c: Rgba8)
    ensures
        hex_notation(c) == seq!['#'] + cased_pair(c.r, false) + cased_pair(c.g, false) + cased_pair(
            c.b,
            false,
        ) + cased_pair(c.a, false),
{
    assert(hex_notation(c) =~= seq!['#'] + cased_pair(c.r, false) + cased_pair(c.g, false)
        + cased_pair(c.b, false) + cased_pair(c.a, false));
}

} // verus!
