//! What the agent hands to the display: device-order frames scaled to the
//! configured brightness, blank frames, and the statistics of a frame.

use vstd::prelude::*;
use crate::config::DisplayConfig;

verus! {

/// Size of a presented frame: how many LEDs it covers and how many are lit.
#[derive(Debug, Clone, Copy, PartialEq, Eq, Structural)]
pub struct FrameStats {
    pub pixels: usize,
    pub lit_pixels: usize,
}

/// Number of non-zero bytes in `s`.
pub open spec fn lit_count(s: Seq<u8>) -> nat
    decreases s.len(),
{
    if s.len() == 0 {
        0
    } else {
        lit_count(s.drop_last()) + if s.last() != 0 {
            1nat
        } else {
            0nat
        }
    }
}

/// The statistics of a frame.
pub open spec fn spec_frame_stats(s: Seq<u8>) -> FrameStats {
    FrameStats { pixels: s.len() as usize, lit_pixels: lit_count(s) as usize }
}

/// One device pixel as the LED receives it: off stays off, any other value
/// lights the LED at the configured brightness.
pub open spec fn scale_pixel(pixel: u8, brightness: u8) -> u8 {
    if pixel == 0 {
        0
    } else {
        brightness
    }
}

/// A device-order frame scaled to `brightness`.
pub open spec fn spec_encode_device_frame(brightness: u8, device_pixels: Seq<u8>) -> Seq<u8> {
    Seq::new(device_pixels.len(), |i: int| scale_pixel(device_pixels[i], brightness))
}

/// A frame of `n` dark pixels.
pub open spec fn spec_blank(n: nat) -> Seq<u8> {
    Seq::new(n, |i: int| 0u8)
}

/// There are never more lit pixels than pixels.
pub proof fn lemma_lit_count_bounded(s: Seq<u8>)
    ensures
        lit_count(s) <= s.len(),
    decreases s.len(),
{
    if s.len() > 0 {
        lemma_lit_count_bounded(s.drop_last());
    }
}

/// Scales each pixel of a frame, given in physical LED-chain order, to the
/// configured brightness: a zero pixel stays zero, any other becomes
/// `config.brightness`.
pub fn encode_device_frame(config: &DisplayConfig, device_pixels: &[u8]) -> (r: Vec<u8>)
    ensures
        r@ == spec_encode_device_frame(config.brightness, device_pixels@),
{
    let n = device_pixels.len();
    let mut out: Vec<u8> = Vec::with_capacity(n);
    for i in 0..n
        invariant
            n == device_pixels@.len(),
            out@ =~= spec_encode_device_frame(config.brightness, device_pixels@.take(i as int)),
    {
        let pixel = device_pixels[i];
        out.push(if pixel == 0 { 0u8 } else { config.brightness });
    }
    assert(device_pixels@.take(n as int) =~= device_pixels@);
    out
}

/// Counts the pixels of a frame and those of them that are lit.
pub fn frame_stats(pixels: &[u8]) -> (stats: FrameStats)
    ensures
        stats == spec_frame_stats(pixels@),
{
    let n = pixels.len();
    let mut lit: usize = 0;
    for i in 0..n
        invariant
            n == pixels@.len(),
            lit == lit_count(pixels@.take(i as int)),
    {
        assert(pixels@.take(i + 1).drop_last() =~= pixels@.take(i as int));
        proof {
            lemma_lit_count_bounded(pixels@.take(i + 1));
        }
        if pixels[i] != 0 {
            lit = lit + 1;
        }
    }
    assert(pixels@.take(n as int) =~= pixels@);
    FrameStats { pixels: n, lit_pixels: lit }
}

/// A frame with every pixel of `config` dark.
pub fn blank_frame(config: &DisplayConfig) -> (r: Vec<u8>)
    ensures
        r@ == spec_blank(config.spec_pixel_count()),
{
    let n = config.pixel_count();
    let mut out: Vec<u8> = Vec::with_capacity(n);
    for i in 0..n
        invariant
            n == config.spec_pixel_count(),
            out@ =~= spec_blank(i as nat),
    {
        out.push(0u8);
    }
    out
}

/// With a non-zero brightness, scaling lights exactly the pixels that were
/// lit; with brightness zero every pixel goes dark.
pub proof fn lemma_encode_preserves_lit(brightness: u8, device_pixels: Seq<u8>)
    ensures
        spec_encode_device_frame(brightness, device_pixels).len() == device_pixels.len(),
        brightness != 0 ==> lit_count(spec_encode_device_frame(brightness, device_pixels))
            == lit_count(device_pixels),
        brightness == 0 ==> lit_count(spec_encode_device_frame(brightness, device_pixels)) == 0,
    decreases device_pixels.len(),
{
    if device_pixels.len() > 0 {
        let rest = device_pixels.drop_last();
        lemma_encode_preserves_lit(brightness, rest);
        assert(spec_encode_device_frame(brightness, device_pixels).drop_last()
            =~= spec_encode_device_frame(brightness, rest));
    }
}

/// A blank frame has no lit pixel.
pub proof fn lemma_blank_is_dark(n: nat)
    ensures
        lit_count(spec_blank(n)) == 0,
    decreases n,
{
    if n > 0 {
        lemma_blank_is_dark((n - 1) as nat);
        assert(spec_blank(n).drop_last() =~= spec_blank((n - 1) as nat));
    }
}

} // verus!
