//! Transmission driver whose backend records the bytes it would send.
//!
//! The driver keeps the byte sequence of the last write so that callers can
//! inspect it; it performs no I/O and none of its operations fails.
use vstd::prelude::*;
use vstd::slice::slice_to_vec;

use crate::color::LedPixelColor;

verus! {

/// Failure of the transmission backend. The recording backend never
/// produces it; callers handle it so that their code also works against a
/// hardware backend.
#[derive(Clone, Copy, Debug, PartialEq, Eq, Structural)]
pub struct Ws2812Esp32RmtDriverError;

/// The bytes a strip of `colors` takes on the wire: the wire bytes of each
/// color, concatenated in the order of the strip.
pub open spec fn wire_concat(colors: Seq<LedPixelColor>) -> Seq<u8>
    decreases colors.len(),
{
    if colors.len() == 0 {
        Seq::empty()
    } else {
        wire_concat(colors.drop_last()) + colors.last().wire()
    }
}

/// WS2812 driver whose backend records each buffer instead of transmitting it.
pub struct Ws2812Esp32RmtDriver {
    /// The transmission channel driven; inert for the recording backend.
    pub channel_num: u8,
    /// The output pin driven; inert for the recording backend.
    pub gpio_num: u32,
    /// Pixel bytes of the last write, in wire order; `None` before any write.
    pub grb_pixels: Option<Vec<u8>>,
    /// Whether a write waits for transmission to end (no effect here).
    pub wait_tx_done: bool,
}

impl Ws2812Esp32RmtDriver {
    /// The recorded byte sequence, `None` before the first write.
    pub open spec fn recorded(self) -> Option<Seq<u8>> {
        match self.grb_pixels {
            Some(v) => Some(v@),
            None => None,
        }
    }

    /// `next` is this driver after a write that stored `bytes`: the recorded
    /// sequence is replaced by `bytes` and nothing else changes.
    pub open spec fn stored(self, next: Self, bytes: Seq<u8>) -> bool {
        &&& next.recorded() == Some(bytes)
        &&& next.channel_num == self.channel_num
        &&& next.gpio_num == self.gpio_num
        &&& next.wait_tx_done == self.wait_tx_done
    }

    /// Creates a driver for `channel_num` and `gpio_num`. The recording
    /// backend always succeeds: nothing is recorded yet and writes are set to
    /// wait for transmission.
    pub fn new(channel_num: u8, gpio_num: u32) -> (r: Result<Self, Ws2812Esp32RmtDriverError>)
        ensures
            r matches Ok(d) && d.recorded() == None::<Seq<u8>> && d.wait_tx_done
                && d.channel_num == channel_num && d.gpio_num == gpio_num,
    {
        Ok(Ws2812Esp32RmtDriver { channel_num, gpio_num, grb_pixels: None, wait_tx_done: true })
    }

    /// Writes bytes that are already in wire order; the recorded sequence
    /// becomes a copy of `grb_pixels`.
    pub fn write(&mut self, grb_pixels: &[u8]) -> (r: Result<(), Ws2812Esp32RmtDriverError>)
        ensures
            r is Ok,
            old(self).stored(*final(self), grb_pixels@),
    {
        self.grb_pixels = Some(slice_to_vec(grb_pixels));
        Ok(())
    }

    /// Writes a strip of colors: each color's wire bytes, in the order of
    /// `colors`, replace the recorded sequence.
    pub fn write_colors(&mut self, colors: &[LedPixelColor]) -> (r: Result<
        (),
        Ws2812Esp32RmtDriverError,
    >)
        ensures
            r is Ok,
            old(self).stored(*final(self), wire_concat(colors@)),
    {
        let mut bytes: Vec<u8> = Vec::new();
        let n = colors.len();
        let mut i: usize = 0;
        while i < n
            invariant
                n == colors@.len(),
                i <= n,
                bytes@ == wire_concat(colors@.subrange(0, i as int)),
            decreases n - i,
        {
            let wire = colors[i].as_wire_bytes();
            let mut j: usize = 0;
            while j < wire.len()
                invariant
                    j <= wire@.len(),
                    bytes@ == wire_concat(colors@.subrange(0, i as int)) + wire@.subrange(
                        0,
                        j as int,
                    ),
                decreases wire@.len() - j,
            {
                bytes.push(wire[j]);
                j = j + 1;
                assert(wire@.subrange(0, j as int) == wire@.subrange(0, j - 1) + seq![
                    wire@[j - 1],
                ]);
            }
            assert(colors@.subrange(0, i + 1).drop_last() == colors@.subrange(0, i as int));
            assert(wire@.subrange(0, wire@.len() as int) == wire@);
            i = i + 1;
        }
        assert(colors@.subrange(0, n as int) == colors@);
        self.grb_pixels = Some(bytes);
        Ok(())
    }
}

/// The bytes of two strips written one after the other are the bytes of the
/// first followed by those of the second: concatenation keeps strip order.
pub proof fn lemma_wire_concat_append(a: Seq<LedPixelColor>, b: Seq<LedPixelColor>)
    ensures
        wire_concat(a + b) == wire_concat(a) + wire_concat(b),
    decreases b.len(),
{
    if b.len() == 0 {
        assert(a + b == a);
        assert(wire_concat(b) == Seq::<u8>::empty());
        assert(wire_concat(a) + wire_concat(b) == wire_concat(a));
    } else {
        lemma_wire_concat_append(a, b.drop_last());
        assert((a + b).drop_last() == a + b.drop_last());
        assert((a + b).last() == b.last());
        assert(wire_concat(a) + wire_concat(b.drop_last()) + b.last().wire() == wire_concat(a) + (
        wire_concat(b.drop_last()) + b.last().wire()));
    }
}

/// A write of colors after another leaves the second strip's bytes recorded
/// and nothing of the first: each write replaces, none appends.
pub proof fn lemma_write_colors_overwrites(
    d0: Ws2812Esp32RmtDriver,
    d1: Ws2812Esp32RmtDriver,
    d2: Ws2812Esp32RmtDriver,
    first: Seq<LedPixelColor>,
    second: Seq<LedPixelColor>,
)
    requires
        d0.stored(d1, wire_concat(first)),
        d1.stored(d2, wire_concat(second)),
    ensures
        d2.recorded() == Some(wire_concat(second)),
        d0.stored(d2, wire_concat(second)),
{
}

} // verus!
