//! The seven block colours and the dimmed pixel each one is shown as.

use vstd::prelude::*;

verus! {

/// Colour of a block. Each of the seven tetrominoes has its own.
#[derive(Clone, Copy, Debug, PartialEq, Eq, Structural)]
pub enum Color {
    Cyan,
    Yellow,
    Purple,
    Orange,
    Blue,
    Green,
    Red,
}

/// Brightness that every colour is scaled to, out of 255. The LEDs have no
/// brightness control of their own, so colours are dimmed before encoding.
pub const BRIGHTNESS: u8 = 5;

/// One pixel as the LED strip takes it: red, green, blue and white channel.
#[derive(Clone, Copy, Debug, PartialEq, Eq, Structural)]
pub struct Rgbw {
    pub r: u8,
    pub g: u8,
    pub b: u8,
    pub w: u8,
}

/// A channel value scaled from full range down to `BRIGHTNESS`.
pub open spec fn dimmed(channel: nat) -> nat {
    channel * (BRIGHTNESS as nat) / 255
}

impl Color {
    /// Position of the colour in the list of the seven colours.
    pub open spec fn index(self) -> nat {
        match self {
            Color::Cyan => 0,
            Color::Yellow => 1,
            Color::Purple => 2,
            Color::Orange => 3,
            Color::Blue => 4,
            Color::Green => 5,
            Color::Red => 6,
        }
    }

    /// The colour at full brightness, as (red, green, blue).
    pub open spec fn full_scale(self) -> (nat, nat, nat) {
        match self {
            Color::Cyan => (0, 255, 255),
            Color::Yellow => (255, 255, 0),
            Color::Purple => (128, 0, 128),
            Color::Orange => (255, 165, 0),
            Color::Blue => (0, 0, 255),
            Color::Green => (0, 255, 0),
            Color::Red => (255, 0, 0),
        }
    }

    /// The pixel shown for the colour: its full-scale channels dimmed to
    /// `BRIGHTNESS`, white off.
    pub open spec fn pixel(self) -> Rgbw {
        let (r, g, b) = self.full_scale();
        Rgbw { r: dimmed(r) as u8, g: dimmed(g) as u8, b: dimmed(b) as u8, w: 0 }
    }

    fn full_scale_channels(self) -> (c: (u8, u8, u8))
        ensures
            (c.0 as nat, c.1 as nat, c.2 as nat) == self.full_scale(),
    {
        match self {
            Color::Cyan => (0, 255, 255),
            Color::Yellow => (255, 255, 0),
            Color::Purple => (128, 0, 128),
            Color::Orange => (255, 165, 0),
            Color::Blue => (0, 0, 255),
            Color::Green => (0, 255, 0),
            Color::Red => (255, 0, 0),
        }
    }

    /// The pixel to send to the LED strip for a block of this colour.
    pub fn rgbw(self) -> (p: Rgbw)
        ensures
            p == self.pixel(),
    {
        let (r, g, b) = self.full_scale_channels();
        Rgbw { r: dim(r), g: dim(g), b: dim(b), w: 0 }
    }
}

/// Scales one channel from full range down to `BRIGHTNESS`.
pub fn dim(channel: u8) -> (d: u8)
    ensures
        d as nat == dimmed(channel as nat),
        d <= BRIGHTNESS,
{
    let scaled: u16 = (channel as u16) * (BRIGHTNESS as u16) / 255;
    assert(scaled <= 5) by {
        assert(BRIGHTNESS == 5);
        assert(channel * 5 <= 255 * 5);
    }
    scaled as u8
}

/// Every block colour is one of the seven listed, and no two of them share a
/// place in the list.
pub proof fn lemma_seven_colors(a: Color, b: Color)
    ensures
        a.index() < 7,
        a == Color::Cyan || a == Color::Yellow || a == Color::Purple || a == Color::Orange
            || a == Color::Blue || a == Color::Green || a == Color::Red,
        a.index() == b.index() ==> a == b,
{
}

/// Every colour lights its pixel, and different colours give different pixels.
pub proof fn lemma_pixels_distinct(a: Color, b: Color)
    ensures
        a.pixel().r > 0 || a.pixel().g > 0 || a.pixel().b > 0,
        a.pixel().w == 0,
        a.pixel() == b.pixel() ==> a == b,
{
}

} // verus!
