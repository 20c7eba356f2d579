use vstd::prelude::*;
use vstd::string::{StringExecFns, StringSliceAdditionalSpecFns};
use vstd::utf8::{encode_utf8, is_ascii_chars, is_ascii_chars_encode_utf8};

verus! {

/// Number of hexadecimal digits in a colour written as text.
pub const HEX_COLOR_LEN: usize = 6;

/// The byte `#`, which may stand before the digits.
pub const HASH: u8 = 0x23;

/// Why a piece of text is not a colour.
#[derive(Debug, Clone, Copy, PartialEq, Eq, Hash, Structural)]
pub enum Error {
    /// The text, once an optional leading `#` is set aside, does not hold
    /// exactly six bytes. Carries the length of the whole text.
    HexColorWrongLen(usize),
    /// The text has the right length but holds this byte, which is not an
    /// ASCII hexadecimal digit.
    NotAsciiHexDigit(u8),
}

/// A colour in the sRGB space, eight bits per channel.
#[derive(Clone, Copy, Debug, PartialEq, Eq, Hash, Structural)]
pub struct Rgb {
    pub r: u8,
    pub g: u8,
    pub b: u8,
}

/// Whether `byte` is one of `0-9` (from 0x30), `a-f` (from 0x61), `A-F`
/// (from 0x41).
pub open spec fn is_hex_digit(byte: u8) -> bool {
    ||| 0x30 <= byte <= 0x39
    ||| 0x61 <= byte <= 0x66
    ||| 0x41 <= byte <= 0x46
}

/// The number a hexadecimal digit stands for.
pub open spec fn hex_digit_value(byte: u8) -> int
    recommends
        is_hex_digit(byte),
{
    if 0x30 <= byte <= 0x39 {
        byte - 0x30
    } else if 0x61 <= byte <= 0x66 {
        byte - 0x61 + 10
    } else {
        byte - 0x41 + 10
    }
}

/// Converts an ASCII hexadecimal digit to the number it stands for.
pub fn hex_byte_to_dec(hex: u8) -> (res: Result<u8, Error>)
    ensures
        is_hex_digit(hex) ==> res == Ok::<u8, Error>(hex_digit_value(hex) as u8),
        !is_hex_digit(hex) ==> res == Err::<u8, Error>(Error::NotAsciiHexDigit(hex)),
        res is Ok ==> res->Ok_0 < 16,
{
    if 0x30 <= hex && hex <= 0x39 {
        Ok(hex - 0x30)
    } else if 0x61 <= hex && hex <= 0x66 {
        Ok(hex - 0x61 + 10)
    } else if 0x41 <= hex && hex <= 0x46 {
        Ok(hex - 0x41 + 10)
    } else {
        Err(Error::NotAsciiHexDigit(hex))
    }
}

/// The number two hexadecimal digits stand for, the first one weighing sixteen.
pub open spec fn hex_pair_value(hex1: u8, hex2: u8) -> int
    recommends
        is_hex_digit(hex1),
        is_hex_digit(hex2),
{
    16 * hex_digit_value(hex1) + hex_digit_value(hex2)
}

/// Converts two ASCII hexadecimal digits to the byte they spell. Where both
/// are wrong the error names the first.
pub fn u8_from_two_hex(hex1: u8, hex2: u8) -> (res: Result<u8, Error>)
    ensures
        is_hex_digit(hex1) && is_hex_digit(hex2) ==> res == Ok::<u8, Error>(
            hex_pair_value(hex1, hex2) as u8,
        ),
        !is_hex_digit(hex1) ==> res == Err::<u8, Error>(Error::NotAsciiHexDigit(hex1)),
        is_hex_digit(hex1) && !is_hex_digit(hex2) ==> res == Err::<u8, Error>(
            Error::NotAsciiHexDigit(hex2),
        ),
{
    match (hex_byte_to_dec(hex1), hex_byte_to_dec(hex2)) {
        (Ok(v1), Ok(v2)) => Ok(v1 * 16 + v2),
        (Err(err), _) => Err(err),
        (_, Err(err)) => Err(err),
    }
}

impl Rgb {
    pub fn new(red: u8, green: u8, blue: u8) -> (res: Self)
        ensures
            res == (Rgb { r: red, g: green, b: blue }),
    {
        Self { r: red, g: green, b: blue }
    }

    /// Calls `func` on every colour there is, in ascending order of red,
    /// then green, then blue.
    pub fn for_each<F: Fn(Self)>(func: F)
        requires
            forall|color: Rgb| call_requires(func, (color,)),
    {
        let mut r: u8 = 0;
        loop
            invariant
                forall|color: Rgb| call_requires(func, (color,)),
            decreases u8::MAX - r,
        {
            let mut g: u8 = 0;
            loop
                invariant
                    forall|color: Rgb| call_requires(func, (color,)),
                decreases u8::MAX - g,
            {
                let mut b: u8 = 0;
                loop
                    invariant
                        forall|color: Rgb| call_requires(func, (color,)),
                    decreases u8::MAX - b,
                {
                    func(Self::new(r, g, b));
                    if b == u8::MAX {
                        break;
                    }
                    b += 1;
                }
                if g == u8::MAX {
                    break;
                }
                g += 1;
            }
            if r == u8::MAX {
                break;
            }
            r += 1;
        }
    }
}

/// Shorthand for [`Rgb::new`].
pub fn rgb(red: u8, green: u8, blue: u8) -> (res: Rgb)
    ensures
        res == (Rgb { r: red, g: green, b: blue }),
{
    Rgb::new(red, green, blue)
}

/// Whether every byte of `digits` is a hexadecimal digit.
pub open spec fn all_hex_digits(digits: Seq<u8>) -> bool {
    forall|i: int| 0 <= i < digits.len() ==> is_hex_digit(#[trigger] digits[i])
}

/// Whether `i` is the place of the first byte of `digits` that is no
/// hexadecimal digit.
pub open spec fn is_first_bad_digit(digits: Seq<u8>, i: int) -> bool {
    &&& 0 <= i < digits.len()
    &&& !is_hex_digit(digits[i])
    &&& forall|j: int| 0 <= j < i ==> is_hex_digit(#[trigger] digits[j])
}

/// The colour that six hexadecimal digits spell: two digits each for red,
/// green and blue.
pub open spec fn digits_to_rgb(digits: Seq<u8>) -> Rgb
    recommends
        digits.len() == HEX_COLOR_LEN,
        all_hex_digits(digits),
{
    Rgb {
        r: hex_pair_value(digits[0], digits[1]) as u8,
        g: hex_pair_value(digits[2], digits[3]) as u8,
        b: hex_pair_value(digits[4], digits[5]) as u8,
    }
}

/// What six bytes mean as a colour: the colour they spell, or the first byte
/// among them that is no hexadecimal digit.
pub open spec fn parse_digits(digits: Seq<u8>) -> Result<Rgb, Error>
    recommends
        digits.len() == HEX_COLOR_LEN,
{
    if all_hex_digits(digits) {
        Ok(digits_to_rgb(digits))
    } else {
        Err(Error::NotAsciiHexDigit(digits[choose|i: int| is_first_bad_digit(digits, i)]))
    }
}

/// Where the digits of `text` begin: behind a leading `#`, if there is one.
pub open spec fn digits_start(text: Seq<u8>) -> int {
    if text.len() > 0 && text[0] == HASH {
        1
    } else {
        0
    }
}

/// What a text means as a colour. The text holds six hexadecimal digits, in
/// either case, and may have a `#` before them.
pub open spec fn parse_hex(text: Seq<u8>) -> Result<Rgb, Error> {
    let digits = text.subrange(digits_start(text), text.len() as int);
    if digits.len() != HEX_COLOR_LEN {
        Err(Error::HexColorWrongLen(text.len() as usize))
    } else {
        parse_digits(digits)
    }
}

impl TryFrom<[u8; 6]> for Rgb {
    type Error = Error;

    /// Reads six hexadecimal digits as a colour.
    fn try_from(value: [u8; 6]) -> (res: Result<Self, Error>)
        ensures
            res == parse_digits(value@),
    {
        let r = match u8_from_two_hex(value[0], value[1]) {
            Ok(v) => v,
            Err(err) => {
                assert(is_first_bad_digit(value@, 0) || is_first_bad_digit(value@, 1));
                return Err(err);
            },
        };
        let g = match u8_from_two_hex(value[2], value[3]) {
            Ok(v) => v,
            Err(err) => {
                assert(is_first_bad_digit(value@, 2) || is_first_bad_digit(value@, 3));
                return Err(err);
            },
        };
        let b = match u8_from_two_hex(value[4], value[5]) {
            Ok(v) => v,
            Err(err) => {
                assert(is_first_bad_digit(value@, 4) || is_first_bad_digit(value@, 5));
                return Err(err);
            },
        };
        Ok(Self { r, g, b })
    }
}

impl vstd::std_specs::convert::TryFromSpecImpl<[u8; 6]> for Rgb {
    open spec fn obeys_try_from_spec() -> bool {
        true
    }

    open spec fn try_from_spec(value: [u8; 6]) -> Result<Self, Error> {
        parse_digits(value@)
    }
}

impl TryFrom<&[u8]> for Rgb {
    type Error = Error;

    /// Reads a colour from six hexadecimal digits, which may have a `#`
    /// before them.
    fn try_from(value: &[u8]) -> (res: Result<Self, Error>)
        ensures
            res == parse_hex(value@),
    {
        let start: usize = if value.len() > 0 && value[0] == HASH {
            1
        } else {
            0
        };
        if value.len() - start != HEX_COLOR_LEN {
            return Err(Error::HexColorWrongLen(value.len()));
        }
        let digits: [u8; 6] = [
            value[start],
            value[start + 1],
            value[start + 2],
            value[start + 3],
            value[start + 4],
            value[start + 5],
        ];
        assert(digits@ =~= value@.subrange(start as int, value@.len() as int));
        Rgb::try_from(digits)
    }
}

impl vstd::std_specs::convert::TryFromSpecImpl<&[u8]> for Rgb {
    open spec fn obeys_try_from_spec() -> bool {
        true
    }

    open spec fn try_from_spec(value: &[u8]) -> Result<Self, Error> {
        parse_hex(value@)
    }
}

impl TryFrom<&str> for Rgb {
    type Error = Error;

    /// Reads a colour from text such as `#00a0f0` or `fFfFfF`.
    fn try_from(value: &str) -> (res: Result<Self, Error>)
        ensures
            res == parse_hex(value.spec_bytes()),
    {
        Rgb::try_from(value.as_bytes())
    }
}

impl vstd::std_specs::convert::TryFromSpecImpl<&str> for Rgb {
    open spec fn obeys_try_from_spec() -> bool {
        true
    }

    open spec fn try_from_spec(value: &str) -> Result<Self, Error> {
        parse_hex(value.spec_bytes())
    }
}

/// The lower-case form of an ASCII letter; any other byte as it is.
pub open spec fn ascii_lowercase(byte: u8) -> u8 {
    if 0x41 <= byte <= 0x5a {
        (byte + 0x20) as u8
    } else {
        byte
    }
}

/// Whether two texts differ at most in the case of their ASCII letters.
pub open spec fn eq_ignore_ascii_case(a: Seq<u8>, b: Seq<u8>) -> bool {
    &&& a.len() == b.len()
    &&& forall|i: int|
        0 <= i < a.len() ==> ascii_lowercase(#[trigger] a[i]) == ascii_lowercase(#[trigger] b[i])
}

/// A text is a colour exactly when, behind an optional `#`, it holds six
/// bytes that are all hexadecimal digits. A text of another length is
/// refused for its length, whatever it holds; one of the right length for
/// its first byte that is no digit.
pub proof fn lemma_parse_hex_accepts(text: Seq<u8>)
    ensures
        parse_hex(text) is Ok <==> text.len() - digits_start(text) == HEX_COLOR_LEN
            && all_hex_digits(text.subrange(digits_start(text), text.len() as int)),
        text.len() - digits_start(text) != HEX_COLOR_LEN ==> parse_hex(text) == Err::<Rgb, Error>(
            Error::HexColorWrongLen(text.len() as usize),
        ),
        parse_hex(text) matches Err(Error::NotAsciiHexDigit(byte)) ==> !is_hex_digit(byte)
            && text.contains(byte),
{
    let digits = text.subrange(digits_start(text), text.len() as int);
    if digits.len() == HEX_COLOR_LEN && !all_hex_digits(digits) {
        lemma_first_bad_digit(digits);
        let i = choose|i: int| is_first_bad_digit(digits, i);
        assert(text[digits_start(text) + i] == digits[i]);
    }
}

/// A leading `#` changes nothing: six bytes mean the same with it and
/// without it, unless they begin with a `#` themselves.
pub proof fn lemma_parse_hex_ignores_hash(digits: Seq<u8>)
    requires
        digits.len() == HEX_COLOR_LEN,
        digits[0] != HASH,
    ensures
        parse_hex(seq![HASH] + digits) == parse_hex(digits),
        parse_hex(digits) == parse_digits(digits),
{
    let text = seq![HASH] + digits;
    assert(text[0] == HASH);
    assert(text.subrange(1, text.len() as int) =~= digits);
    assert(digits.subrange(0, digits.len() as int) =~= digits);
}

/// The case of the letters changes nothing: two texts that differ in it
/// alone are both colours or both not, and then the same colour.
pub proof fn lemma_parse_hex_ignores_case(a: Seq<u8>, b: Seq<u8>)
    requires
        eq_ignore_ascii_case(a, b),
    ensures
        parse_hex(a) is Ok <==> parse_hex(b) is Ok,
        parse_hex(a) is Ok ==> parse_hex(a) == parse_hex(b),
{
    if a.len() > 0 {
        assert(ascii_lowercase(a[0]) == ascii_lowercase(b[0]));
    }
    let start = digits_start(a);
    assert(start == digits_start(b));
    let da = a.subrange(start, a.len() as int);
    let db = b.subrange(start, b.len() as int);
    if da.len() == HEX_COLOR_LEN {
        assert forall|i: int| 0 <= i < 6 implies {
            &&& is_hex_digit(#[trigger] da[i]) == is_hex_digit(db[i])
            &&& is_hex_digit(da[i]) ==> hex_digit_value(da[i]) == hex_digit_value(db[i])
        } by {
            assert(da[i] == a[start + i] && db[i] == b[start + i]);
            assert(ascii_lowercase(a[start + i]) == ascii_lowercase(b[start + i]));
        }
        if all_hex_digits(da) {
            assert forall|i: int| 0 <= i < db.len() implies is_hex_digit(#[trigger] db[i]) by {
                assert(is_hex_digit(da[i]));
            }
        }
        if all_hex_digits(db) {
            assert forall|i: int| 0 <= i < da.len() implies is_hex_digit(#[trigger] da[i]) by {
                assert(is_hex_digit(db[i]));
            }
        }
    }
}

/// Among bytes that are not all hexadecimal digits one is the first that
/// is not.
proof fn lemma_first_bad_digit(digits: Seq<u8>)
    requires
        !all_hex_digits(digits),
    ensures
        exists|i: int| is_first_bad_digit(digits, i),
    decreases digits.len(),
{
    let bad = choose|i: int| 0 <= i < digits.len() && !is_hex_digit(#[trigger] digits[i]);
    let front = digits.take(bad);
    if all_hex_digits(front) {
        assert forall|j: int| 0 <= j < bad implies is_hex_digit(#[trigger] digits[j]) by {
            assert(front[j] == digits[j]);
        }
        assert(is_first_bad_digit(digits, bad));
    } else {
        lemma_first_bad_digit(front);
        let i = choose|i: int| is_first_bad_digit(front, i);
        assert forall|j: int| 0 <= j < i implies is_hex_digit(#[trigger] digits[j]) by {
            assert(front[j] == digits[j]);
        }
        assert(front[i] == digits[i]);
        assert(is_first_bad_digit(digits, i));
    }
}

/// The character that writes a number below sixteen: `0` to `9`, then `a`
/// to `f`, or `A` to `F` where `upper` is set.
pub open spec fn digit_char(value: int, upper: bool) -> char
    recommends
        0 <= value < 16,
{
    if value < 10 {
        (0x30 + value) as u8 as char
    } else if upper {
        (0x41 + value - 10) as u8 as char
    } else {
        (0x61 + value - 10) as u8 as char
    }
}

/// A channel value as two hexadecimal digits.
pub open spec fn hex_pair_text(channel: u8, upper: bool) -> Seq<char> {
    seq![digit_char(channel as int / 16, upper), digit_char(channel as int % 16, upper)]
}

/// A colour as `#` and six hexadecimal digits, two each for red, green and
/// blue.
pub open spec fn hex_text(color: Rgb, upper: bool) -> Seq<char> {
    seq!['#'] + hex_pair_text(color.r, upper) + hex_pair_text(color.g, upper) + hex_pair_text(
        color.b,
        upper,
    )
}

/// A number in decimal digits, with no leading zero.
pub open spec fn decimal_text(n: nat) -> Seq<char>
    decreases n,
{
    if n < 10 {
        seq![digit_char(n as int, false)]
    } else {
        decimal_text(n / 10).push(digit_char((n % 10) as int, false))
    }
}

/// A colour as `Rgb(r, g, b)`, the channels in decimal.
pub open spec fn rgb_text(color: Rgb) -> Seq<char> {
    "Rgb("@ + decimal_text(color.r as nat) + ", "@ + decimal_text(color.g as nat) + ", "@
        + decimal_text(color.b as nat) + ")"@
}

/// What an error says of itself.
pub open spec fn error_text(error: Error) -> Seq<char> {
    match error {
        Error::HexColorWrongLen(_) => "The length of hex string must be "@ + decimal_text(
            HEX_COLOR_LEN as nat,
        ) + " or "@ + decimal_text((HEX_COLOR_LEN + 1) as nat)
            + " if the first character is '#'"@,
        Error::NotAsciiHexDigit(byte) => decimal_text(byte as nat)
            + " is not ascii hexadecimal digit"@,
    }
}

/// The text of one digit.
fn digit_str(value: u8, upper: bool) -> (res: &'static str)
    requires
        value < 16,
    ensures
        res@ == seq![digit_char(value as int, upper)],
{
    proof {
        reveal_strlit("0");
        reveal_strlit("1");
        reveal_strlit("2");
        reveal_strlit("3");
        reveal_strlit("4");
        reveal_strlit("5");
        reveal_strlit("6");
        reveal_strlit("7");
        reveal_strlit("8");
        reveal_strlit("9");
        reveal_strlit("a");
        reveal_strlit("b");
        reveal_strlit("c");
        reveal_strlit("d");
        reveal_strlit("e");
        reveal_strlit("f");
        reveal_strlit("A");
        reveal_strlit("B");
        reveal_strlit("C");
        reveal_strlit("D");
        reveal_strlit("E");
        reveal_strlit("F");
    }
    let res = match (value, upper) {
        (0, _) => "0",
        (1, _) => "1",
        (2, _) => "2",
        (3, _) => "3",
        (4, _) => "4",
        (5, _) => "5",
        (6, _) => "6",
        (7, _) => "7",
        (8, _) => "8",
        (9, _) => "9",
        (10, false) => "a",
        (11, false) => "b",
        (12, false) => "c",
        (13, false) => "d",
        (14, false) => "e",
        (15, false) => "f",
        (10, true) => "A",
        (11, true) => "B",
        (12, true) => "C",
        (13, true) => "D",
        (14, true) => "E",
        (_, _) => "F",
    };
    assert(res@ =~= seq![digit_char(value as int, upper)]);
    res
}

/// Writes `n` in decimal at the end of `text`.
fn push_decimal(text: &mut String, n: usize)
    ensures
        final(text)@ == old(text)@ + decimal_text(n as nat),
    decreases n,
{
    if n >= 10 {
        push_decimal(text, n / 10);
    }
    text.append(digit_str((n % 10) as u8, false));
    assert(text@ =~= old(text)@ + decimal_text(n as nat));
}

/// Writes a channel value as two hexadecimal digits at the end of `text`.
fn push_hex_pair(text: &mut String, channel: u8, upper: bool)
    ensures
        final(text)@ == old(text)@ + hex_pair_text(channel, upper),
{
    text.append(digit_str(channel / 16, upper));
    text.append(digit_str(channel % 16, upper));
    assert(text@ =~= old(text)@ + hex_pair_text(channel, upper));
}

impl Rgb {
    /// The colour as `#rrggbb`.
    pub fn lower_hex(&self) -> (res: String)
        ensures
            res@ == hex_text(*self, false),
    {
        self.hex(false)
    }

    /// The colour as `#RRGGBB`.
    pub fn upper_hex(&self) -> (res: String)
        ensures
            res@ == hex_text(*self, true),
    {
        self.hex(true)
    }

    fn hex(&self, upper: bool) -> (res: String)
        ensures
            res@ == hex_text(*self, upper),
    {
        proof {
            reveal_strlit("#");
        }
        let mut res = String::from_str("#");
        push_hex_pair(&mut res, self.r, upper);
        push_hex_pair(&mut res, self.g, upper);
        push_hex_pair(&mut res, self.b, upper);
        assert(res@ =~= hex_text(*self, upper));
        res
    }

    /// The colour as `Rgb(r, g, b)`.
    pub fn to_string(&self) -> (res: String)
        ensures
            res@ == rgb_text(*self),
    {
        let mut res = String::from_str("Rgb(");
        push_decimal(&mut res, self.r as usize);
        res.append(", ");
        push_decimal(&mut res, self.g as usize);
        res.append(", ");
        push_decimal(&mut res, self.b as usize);
        res.append(")");
        assert(res@ =~= rgb_text(*self));
        res
    }
}

impl Error {
    /// What the error says of itself.
    pub fn to_string(&self) -> (res: String)
        ensures
            res@ == error_text(*self),
    {
        match self {
            Error::HexColorWrongLen(_) => {
                let mut res = String::from_str("The length of hex string must be ");
                push_decimal(&mut res, HEX_COLOR_LEN);
                res.append(" or ");
                push_decimal(&mut res, HEX_COLOR_LEN + 1);
                res.append(" if the first character is '#'");
                assert(res@ =~= error_text(*self));
                res
            },
            Error::NotAsciiHexDigit(byte) => {
                let mut res = String::new();
                push_decimal(&mut res, *byte as usize);
                res.append(" is not ascii hexadecimal digit");
                assert(res@ =~= error_text(*self));
                res
            },
        }
    }
}

/// A digit reads back as the number it was written for.
proof fn lemma_digit_char_value(value: int, upper: bool)
    requires
        0 <= value < 16,
    ensures
        '\0' <= digit_char(value, upper) <= '\u{7f}',
        is_hex_digit(digit_char(value, upper) as u8),
        hex_digit_value(digit_char(value, upper) as u8) == value,
{
}

/// A colour written out in hexadecimal, in either case, reads back as
/// itself.
pub proof fn lemma_hex_text_round_trip(color: Rgb, upper: bool)
    ensures
        is_ascii_chars(hex_text(color, upper)),
        parse_hex(encode_utf8(hex_text(color, upper))) == Ok::<Rgb, Error>(color),
{
    let text = hex_text(color, upper);
    lemma_digit_char_value(color.r as int / 16, upper);
    lemma_digit_char_value(color.r as int % 16, upper);
    lemma_digit_char_value(color.g as int / 16, upper);
    lemma_digit_char_value(color.g as int % 16, upper);
    lemma_digit_char_value(color.b as int / 16, upper);
    lemma_digit_char_value(color.b as int % 16, upper);
    assert(text.len() == 7);
    assert(text[0] == '#');
    assert(text[1] == digit_char(color.r as int / 16, upper));
    assert(text[2] == digit_char(color.r as int % 16, upper));
    assert(text[3] == digit_char(color.g as int / 16, upper));
    assert(text[4] == digit_char(color.g as int % 16, upper));
    assert(text[5] == digit_char(color.b as int / 16, upper));
    assert(text[6] == digit_char(color.b as int % 16, upper));
    assert(is_ascii_chars(text));
    is_ascii_chars_encode_utf8(text);
    let bytes = encode_utf8(text);
    assert(bytes[0] == HASH);
    let digits = bytes.subrange(1, 7);
    assert forall|i: int| 0 <= i < 6 implies #[trigger] digits[i] == text[i + 1] as u8 by {
        assert(digits[i] == bytes[i + 1]);
    }
    assert(all_hex_digits(digits));
    assert(digits_to_rgb(digits) == color);
}

} // verus!
