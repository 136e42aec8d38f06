//! Color of one LED, with the channel order of its chipset.
use vstd::prelude::*;

verus! {

/// The chipset family of a pixel: how many channels it takes and in which
/// order they are transmitted.
#[derive(Clone, Copy, Debug, PartialEq, Eq, Structural)]
pub enum ColorOrder {
    /// Red, green, blue; three bytes.
    Rgb24,
    /// Green, red, blue; three bytes (WS2812B and most of its clones).
    Grb24,
    /// Red, green, blue, white; four bytes.
    Rgbw32,
    /// Green, red, blue, white; four bytes (SK6812 RGBW).
    Grbw32,
}

impl ColorOrder {
    /// Number of bytes one pixel of this family takes on the wire.
    pub open spec fn spec_num_channels(self) -> nat {
        match self {
            ColorOrder::Rgb24 | ColorOrder::Grb24 => 3,
            ColorOrder::Rgbw32 | ColorOrder::Grbw32 => 4,
        }
    }

    pub fn num_channels(self) -> (n: usize)
        ensures
            n == self.spec_num_channels(),
    {
        match self {
            ColorOrder::Rgb24 | ColorOrder::Grb24 => 3,
            ColorOrder::Rgbw32 | ColorOrder::Grbw32 => 4,
        }
    }
}

/// The color of one LED as logical channel values, tagged with the wire order
/// of its chipset. The value cannot be changed once made.
#[derive(Clone, Copy, Debug)]
pub struct LedPixelColor {
    order: ColorOrder,
    r: u8,
    g: u8,
    b: u8,
    w: u8,
}

impl LedPixelColor {
    pub closed spec fn spec_order(self) -> ColorOrder {
        self.order
    }

    pub closed spec fn spec_r(self) -> u8 {
        self.r
    }

    pub closed spec fn spec_g(self) -> u8 {
        self.g
    }

    pub closed spec fn spec_b(self) -> u8 {
        self.b
    }

    pub closed spec fn spec_w(self) -> u8 {
        self.w
    }

    /// The bytes this pixel puts on the wire: its logical channels permuted
    /// into the order of its chipset.
    pub open spec fn wire(self) -> Seq<u8> {
        let (r, g, b, w) = (self.spec_r(), self.spec_g(), self.spec_b(), self.spec_w());
        match self.spec_order() {
            ColorOrder::Rgb24 => seq![r, g, b],
            ColorOrder::Grb24 => seq![g, r, b],
            ColorOrder::Rgbw32 => seq![r, g, b, w],
            ColorOrder::Grbw32 => seq![g, r, b, w],
        }
    }

    /// Makes a color from red, green and blue; a white channel, where the
    /// chipset has one, is off.
    pub fn new_with_rgb(order: ColorOrder, r: u8, g: u8, b: u8) -> (c: Self)
        ensures
            c.spec_order() == order,
            c.spec_r() == r,
            c.spec_g() == g,
            c.spec_b() == b,
            c.spec_w() == 0,
    {
        LedPixelColor { order, r, g, b, w: 0 }
    }

    /// Makes a color from red, green, blue and white. A chipset without a
    /// white channel does not transmit `w`.
    pub fn new_with_rgbw(order: ColorOrder, r: u8, g: u8, b: u8, w: u8) -> (c: Self)
        ensures
            c.spec_order() == order,
            c.spec_r() == r,
            c.spec_g() == g,
            c.spec_b() == b,
            c.spec_w() == w,
    {
        LedPixelColor { order, r, g, b, w }
    }

    pub fn order(&self) -> (o: ColorOrder)
        ensures
            o == self.spec_order(),
    {
        self.order
    }

    pub fn r(&self) -> (v: u8)
        ensures
            v == self.spec_r(),
    {
        self.r
    }

    pub fn g(&self) -> (v: u8)
        ensures
            v == self.spec_g(),
    {
        self.g
    }

    pub fn b(&self) -> (v: u8)
        ensures
            v == self.spec_b(),
    {
        self.b
    }

    pub fn w(&self) -> (v: u8)
        ensures
            v == self.spec_w(),
    {
        self.w
    }

    /// Whether two pixels show the same color, whatever their wire order:
    /// the logical channels are compared, and white only where both
    /// chipsets transmit it.
    pub open spec fn spec_same_color(self, other: Self) -> bool {
        &&& self.spec_r() == other.spec_r()
        &&& self.spec_g() == other.spec_g()
        &&& self.spec_b() == other.spec_b()
        &&& (self.spec_order().spec_num_channels() == 4
            && other.spec_order().spec_num_channels() == 4 ==> self.spec_w() == other.spec_w())
    }

    pub fn same_color(&self, other: &Self) -> (e: bool)
        ensures
            e == self.spec_same_color(*other),
    {
        let both_white = self.order.num_channels() == 4 && other.order.num_channels() == 4;
        self.r == other.r && self.g == other.g && self.b == other.b && (!both_white || self.w
            == other.w)
    }

    /// The pixel's bytes in wire order.
    pub fn as_wire_bytes(&self) -> (v: Vec<u8>)
        ensures
            v@ == self.wire(),
            v@.len() == self.spec_order().spec_num_channels(),
    {
        match self.order {
            ColorOrder::Rgb24 => vec![self.r, self.g, self.b],
            ColorOrder::Grb24 => vec![self.g, self.r, self.b],
            ColorOrder::Rgbw32 => vec![self.r, self.g, self.b, self.w],
            ColorOrder::Grbw32 => vec![self.g, self.r, self.b, self.w],
        }
    }
}

/// A GRB pixel made from `(r, g, b)` puts `g`, `r`, `b` on the wire, in that
/// order, and nothing else.
pub proof fn lemma_grb_wire_order(c: LedPixelColor, r: u8, g: u8, b: u8)
    requires
        c.spec_order() == ColorOrder::Grb24,
        c.spec_r() == r,
        c.spec_g() == g,
        c.spec_b() == b,
    ensures
        c.wire() == seq![g, r, b],
        c.wire().len() == 3,
{
}

} // verus!
