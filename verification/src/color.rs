//! Display colours of names, clan tags and level badges.

use crate::text::{lemma_filter_take_step, to_chars};
use vstd::prelude::*;

verus! {

/// A colour as three 8-bit channels.
#[derive(Debug, Clone, Copy, PartialEq, Eq, Structural)]
pub struct Rgb {
    red: u8,
    green: u8,
    blue: u8,
}

/// The value of a hexadecimal digit, in either case.
pub open spec fn hex_value(c: char) -> Option<int> {
    if '0' <= c <= '9' {
        Some(c as int - '0' as int)
    } else if 'a' <= c <= 'f' {
        Some(c as int - 'a' as int + 10)
    } else if 'A' <= c <= 'F' {
        Some(c as int - 'A' as int + 10)
    } else {
        None
    }
}

/// The value of one channel written as the two characters `high` and `low`:
/// two hexadecimal digits, or a plus sign before a single digit.
pub open spec fn channel_value(high: char, low: char) -> Option<int> {
    if high == '+' {
        hex_value(low)
    } else {
        match (hex_value(high), hex_value(low)) {
            (Some(h), Some(l)) => Some(16 * h + l),
            _ => None,
        }
    }
}

/// The text without its `#` characters.
pub open spec fn strip_hashes(text: Seq<char>) -> Seq<char> {
    text.filter(|c: char| c != '#')
}

/// The colour that a hexadecimal notation such as `#ffaa00` denotes: once
/// every `#` is taken out, the first six characters give the three channels.
/// `None` where fewer than six remain or one channel is not a number.
pub open spec fn hex_color(text: Seq<char>) -> Option<(int, int, int)> {
    let digits = strip_hashes(text);
    if digits.len() < 6 {
        None
    } else {
        match (
            channel_value(digits[0], digits[1]),
            channel_value(digits[2], digits[3]),
            channel_value(digits[4], digits[5]),
        ) {
            (Some(r), Some(g), Some(b)) => Some((r, g, b)),
            _ => None,
        }
    }
}

/// The number of a chat colour code: `0` to `9`, then `a` to `f` in lower case.
pub open spec fn color_code_index(code: char) -> Option<int> {
    if '0' <= code <= '9' {
        Some(code as int - '0' as int)
    } else if 'a' <= code <= 'f' {
        Some(code as int - 'a' as int + 10)
    } else {
        None
    }
}

/// One channel of the sixteen-colour chat palette. The low three bits of the
/// index switch red (`weight` 4), green (2) and blue (1) on at 170; the upper
/// eight colours are 85 brighter.
pub open spec fn palette_channel(index: int, weight: int) -> int {
    (if (index / weight) % 2 == 1 { 170int } else { 0int }) + (if index >= 8 { 85int } else { 0int })
}

/// The colour of a chat colour code. Code `6` is gold, which leaves the
/// regular pattern; a character that is no code is white.
pub open spec fn minecraft_palette(code: char) -> (int, int, int) {
    match color_code_index(code) {
        Some(index) => if index == 6 {
            (255, 170, 0)
        } else {
            (palette_channel(index, 4), palette_channel(index, 2), palette_channel(index, 1))
        },
        None => (255, 255, 255),
    }
}

fn hex_digit(c: char) -> (r: Option<u8>)
    ensures
        match r {
            Some(v) => hex_value(c) == Some(v as int),
            None => hex_value(c) is None,
        },
{
    if '0' <= c && c <= '9' {
        Some((c as u32 - '0' as u32) as u8)
    } else if 'a' <= c && c <= 'f' {
        Some((c as u32 - 'a' as u32 + 10) as u8)
    } else if 'A' <= c && c <= 'F' {
        Some((c as u32 - 'A' as u32 + 10) as u8)
    } else {
        None
    }
}

fn channel(high: char, low: char) -> (r: Option<u8>)
    ensures
        match r {
            Some(v) => channel_value(high, low) == Some(v as int),
            None => channel_value(high, low) is None,
        },
{
    if high == '+' {
        hex_digit(low)
    } else {
        match (hex_digit(high), hex_digit(low)) {
            (Some(h), Some(l)) => Some(16 * h + l),
            _ => None,
        }
    }
}

impl Rgb {
    /// The channels as a triple of integers: red, green, blue.
    pub closed spec fn channels(self) -> (int, int, int) {
        (self.red as int, self.green as int, self.blue as int)
    }

    /// Two colours with the same channels are the same colour.
    pub proof fn lemma_channels_determine(self, other: Rgb)
        requires
            self.channels() == other.channels(),
        ensures
            self == other,
    {
    }

    /// Every channel lies between 0 and 255.
    pub proof fn lemma_channels_in_range(self)
        ensures
            0 <= self.channels().0 <= 255,
            0 <= self.channels().1 <= 255,
            0 <= self.channels().2 <= 255,
    {
    }

    /// The colour with these channels.
    pub fn new(r: u8, g: u8, b: u8) -> (c: Self)
        ensures
            c.channels() == (r as int, g as int, b as int),
    {
        Rgb { red: r, green: g, blue: b }
    }

    /// The red channel.
    pub fn red(&self) -> (v: u8)
        ensures
            v == self.channels().0,
    {
        self.red
    }

    /// The green channel.
    pub fn green(&self) -> (v: u8)
        ensures
            v == self.channels().1,
    {
        self.green
    }

    /// The blue channel.
    pub fn blue(&self) -> (v: u8)
        ensures
            v == self.channels().2,
    {
        self.blue
    }

    /// The colour written in hexadecimal, where the text is such a notation.
    pub fn try_from_hex(hex: &str) -> (r: Option<Self>)
        ensures
            match r {
                Some(c) => hex_color(hex@) == Some(c.channels()),
                None => hex_color(hex@) is None,
            },
    {
        let chars = to_chars(hex);
        let mut digits: Vec<char> = Vec::new();
        let mut i: usize = 0;
        while i < chars.len()
            invariant
                i <= chars.len(),
                chars@ == hex@,
                digits@ == strip_hashes(hex@.take(i as int)),
            decreases chars.len() - i,
        {
            proof {
                lemma_filter_take_step(hex@, |c: char| c != '#', i as int);
            }
            if chars[i] != '#' {
                digits.push(chars[i]);
            }
            i += 1;
        }
        assert(hex@.take(i as int) =~= hex@);
        if digits.len() < 6 {
            return None;
        }
        match (
            channel(digits[0], digits[1]),
            channel(digits[2], digits[3]),
            channel(digits[4], digits[5]),
        ) {
            (Some(red), Some(green), Some(blue)) => Some(Rgb { red, green, blue }),
            _ => None,
        }
    }

    /// The colour written in hexadecimal.
    pub fn from_hex(hex: &str) -> (c: Self)
        requires
            hex_color(hex@) is Some,
        ensures
            hex_color(hex@) == Some(c.channels()),
    {
        match Rgb::try_from_hex(hex) {
            Some(c) => c,
            None => Rgb { red: 0, green: 0, blue: 0 },
        }
    }

    /// The colour of a chat colour code.
    pub fn from_minecraft_color(color_char: &char) -> (c: Self)
        ensures
            c.channels() == minecraft_palette(*color_char),
    {
        match *color_char {
            '0' => Rgb { red: 0, green: 0, blue: 0 },
            '1' => Rgb { red: 0, green: 0, blue: 170 },
            '2' => Rgb { red: 0, green: 170, blue: 0 },
            '3' => Rgb { red: 0, green: 170, blue: 170 },
            '4' => Rgb { red: 170, green: 0, blue: 0 },
            '5' => Rgb { red: 170, green: 0, blue: 170 },
            '6' => Rgb { red: 255, green: 170, blue: 0 },
            '7' => Rgb { red: 170, green: 170, blue: 170 },
            '8' => Rgb { red: 85, green: 85, blue: 85 },
            '9' => Rgb { red: 85, green: 85, blue: 255 },
            'a' => Rgb { red: 85, green: 255, blue: 85 },
            'b' => Rgb { red: 85, green: 255, blue: 255 },
            'c' => Rgb { red: 255, green: 85, blue: 85 },
            'd' => Rgb { red: 255, green: 85, blue: 255 },
            'e' => Rgb { red: 255, green: 255, blue: 85 },
            'f' => Rgb { red: 255, green: 255, blue: 255 },
            _ => Rgb { red: 255, green: 255, blue: 255 },
        }
    }
}

} // verus!
