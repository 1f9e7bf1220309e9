use vstd::prelude::*;

verus! {

/// An RGB color; each channel is an 8-bit unsigned value.
#[derive(Clone, Copy, Debug, PartialEq, Eq, Structural)]
pub struct Color {
    /// Red channel
    pub red: u8,
    /// Green channel
    pub green: u8,
    /// Blue channel
    pub blue: u8,
}

/// The packed form of a color: red in bits 16..24, green in bits 8..16, blue in bits 0..8.
pub open spec fn packed_of(red: u8, green: u8, blue: u8) -> int {
    red as int * 65536 + green as int * 256 + blue as int
}

/// The color that a packed integer stands for; bits above the low 24 are ignored.
pub open spec fn color_of(x: u32) -> Color {
    Color {
        red: ((x as int / 65536) % 256) as u8,
        green: ((x as int / 256) % 256) as u8,
        blue: (x as int % 256) as u8,
    }
}

/// The packed integer that a color stands for.
pub open spec fn packed_color(c: Color) -> u32 {
    packed_of(c.red, c.green, c.blue) as u32
}

/// The red channel of the default color.
pub const DEFAULT_RED: u8 = 222;

/// The green channel of the default color.
pub const DEFAULT_GREEN: u8 = 165;

/// The blue channel of the default color.
pub const DEFAULT_BLUE: u8 = 132;

/// The default color of an embed.
pub open spec fn default_color() -> Color {
    Color { red: DEFAULT_RED, green: DEFAULT_GREEN, blue: DEFAULT_BLUE }
}

/// The largest integer that fits in 24 bits.
pub const MAX_PACKED: u32 = 0xff_ffff;

impl Color {
    /// Decodes a packed integer into its three channels; bits above the low 24 are dropped.
    pub fn from_packed(x: u32) -> (c: Color)
        ensures
            c == color_of(x),
    {
        let red = ((x >> 16u32) & 0xffu32) as u8;
        let green = ((x >> 8u32) & 0xffu32) as u8;
        let blue = (x & 0xffu32) as u8;
        assert(((x >> 16u32) & 0xffu32) == (x / 65536) % 256) by (bit_vector);
        assert(((x >> 8u32) & 0xffu32) == (x / 256) % 256) by (bit_vector);
        assert((x & 0xffu32) == x % 256) by (bit_vector);
        Color { red, green, blue }
    }

    /// Encodes the three channels as one packed integer.
    pub fn to_packed(self) -> (x: u32)
        ensures
            x as int == packed_of(self.red, self.green, self.blue),
            x <= MAX_PACKED,
            x == packed_color(self),
    {
        let r = self.red as u32;
        let g = self.green as u32;
        let b = self.blue as u32;
        assert(r < 256 && g < 256 && b < 256 ==> ((r << 16u32) | (g << 8u32)) | b == r * 65536
            + g * 256 + b) by (bit_vector);
        ((r << 16u32) | (g << 8u32)) | b
    }
}

impl Default for Color {
    fn default() -> (c: Color)
        ensures
            c == default_color(),
    {
        Color { red: DEFAULT_RED, green: DEFAULT_GREEN, blue: DEFAULT_BLUE }
    }
}

impl From<u32> for Color {
    fn from(x: u32) -> (c: Color) {
        Color::from_packed(x)
    }
}

impl vstd::std_specs::convert::FromSpecImpl<u32> for Color {
    open spec fn obeys_from_spec() -> bool {
        true
    }

    open spec fn from_spec(x: u32) -> Color {
        color_of(x)
    }
}

impl From<Color> for u32 {
    fn from(c: Color) -> (x: u32) {
        c.to_packed()
    }
}

impl vstd::std_specs::convert::FromSpecImpl<Color> for u32 {
    open spec fn obeys_from_spec() -> bool {
        true
    }

    open spec fn from_spec(c: Color) -> u32 {
        packed_color(c)
    }
}

/// Decoding a 24-bit integer and encoding the result gives the integer back.
pub proof fn lemma_packed_round_trip(x: u32)
    requires
        x <= MAX_PACKED,
    ensures
        packed_color(color_of(x)) == x,
{
    assert(x <= 0xff_ffffu32 ==> ((x / 65536) % 256) * 65536 + ((x / 256) % 256) * 256 + x % 256
        == x) by (bit_vector);
}

/// Encoding a color and decoding the result gives the color back.
pub proof fn lemma_color_round_trip(c: Color)
    ensures
        color_of(packed_color(c)) == c,
        packed_color(c) <= MAX_PACKED,
{
    let r = c.red as u32;
    let g = c.green as u32;
    let b = c.blue as u32;
    assert(r < 256 && g < 256 && b < 256 ==> {
        let x = r * 65536 + g * 256 + b;
        (x / 65536) % 256 == r && (x / 256) % 256 == g && x % 256 == b && x <= 0xff_ffff
    }) by (bit_vector);
}

} // verus!
