//! The `LEDDYF01` packet that carries one frame to the HUB75 helper.
//!
//! Layout: 8 bytes magic, 1 byte version, 1 byte origin code, 1 byte
//! serpentine flag, 1 byte brightness, 2 bytes width, 2 bytes height and 4
//! bytes payload length (all little endian), then the row-major pixels.

use vstd::prelude::*;
use crate::config::{
    DisplayConfig,
    ErrorKind,
    lemma_pixel_count_fits_u32,
    origin_code,
    spec_origin_code,
};

verus! {

/// First eight bytes of every packet: `LEDDYF01`.
pub const HUB75_PACKET_MAGIC: [u8; 8] = [0x4c, 0x45, 0x44, 0x44, 0x59, 0x46, 0x30, 0x31];

/// Protocol version carried in byte 8.
pub const HUB75_PACKET_VERSION: u8 = 1;

/// Length of the fixed header that precedes the pixels.
pub const HUB75_HEADER_LEN: usize = 20;

/// Why a frame could not be framed as a packet.
#[derive(Debug, Clone, Copy, PartialEq, Eq, Structural)]
pub enum PacketError {
    /// The frame does not hold one byte per pixel of the configuration.
    LengthMismatch { expected: usize, actual: usize },
}

impl PacketError {
    /// Every packet error is a refusal of the caller's input.
    pub fn kind(&self) -> (k: ErrorKind)
        ensures
            k == ErrorKind::InvalidInput,
    {
        ErrorKind::InvalidInput
    }
}

/// The magic as a sequence.
pub open spec fn spec_magic() -> Seq<u8> {
    seq![0x4cu8, 0x45u8, 0x44u8, 0x44u8, 0x59u8, 0x46u8, 0x30u8, 0x31u8]
}

/// `x` as two little-endian bytes.
pub open spec fn le16(x: u16) -> Seq<u8> {
    seq![(x % 256) as u8, (x / 256) as u8]
}

/// `x` as four little-endian bytes.
pub open spec fn le32(x: u32) -> Seq<u8> {
    seq![
        (x % 256) as u8,
        ((x / 256) % 256) as u8,
        ((x / 65536) % 256) as u8,
        (x / 16777216) as u8,
    ]
}

/// The value of two little-endian bytes.
pub open spec fn le16_value(b: Seq<u8>) -> int {
    b[0] + 256 * b[1]
}

/// The value of four little-endian bytes.
pub open spec fn le32_value(b: Seq<u8>) -> int {
    b[0] + 256 * b[1] + 65536 * b[2] + 16777216 * b[3]
}

/// The serpentine flag as a byte.
pub open spec fn flag_byte(b: bool) -> u8 {
    if b {
        1
    } else {
        0
    }
}

/// The 20-byte header of a packet whose payload is `payload_len` bytes long.
pub open spec fn spec_hub75_header(config: DisplayConfig, payload_len: u32) -> Seq<u8> {
    spec_magic() + seq![
        HUB75_PACKET_VERSION,
        spec_origin_code(config.origin),
        flag_byte(config.serpentine),
        config.brightness,
    ] + le16(config.width) + le16(config.height) + le32(payload_len)
}

/// The whole packet for `pixels`: the header, then the pixels as they are.
pub open spec fn spec_hub75_packet(config: DisplayConfig, pixels: Seq<u8>) -> Seq<u8> {
    spec_hub75_header(config, pixels.len() as u32) + pixels
}

/// Appends `src` to `dst`.
pub(crate) fn push_all(dst: &mut Vec<u8>, src: &[u8])
    ensures
        final(dst)@ == old(dst)@ + src@,
{
    let n = src.len();
    for i in 0..n
        invariant
            n == src@.len(),
            dst@ == old(dst)@ + src@.take(i as int),
    {
        dst.push(src[i]);
        assert(src@.take(i + 1) == src@.take(i as int).push(src@[i as int]));
    }
    assert(src@.take(n as int) == src@);
}

/// Appends `x` as two little-endian bytes.
fn push_le16(dst: &mut Vec<u8>, x: u16)
    ensures
        final(dst)@ == old(dst)@ + le16(x),
{
    dst.push((x % 256) as u8);
    dst.push((x / 256) as u8);
    assert(dst@ =~= old(dst)@ + le16(x));
}

/// Appends `x` as four little-endian bytes.
fn push_le32(dst: &mut Vec<u8>, x: u32)
    ensures
        final(dst)@ == old(dst)@ + le32(x),
{
    dst.push((x % 256) as u8);
    dst.push(((x / 256) % 256) as u8);
    dst.push(((x / 65536) % 256) as u8);
    dst.push((x / 16777216) as u8);
    assert(dst@ =~= old(dst)@ + le32(x));
}

/// Appends the packet for `pixels` to `writer`. The pixels must hold one byte
/// per pixel of `config`; otherwise nothing is written and the length
/// mismatch is reported.
pub fn write_hub75_packet(
    writer: &mut Vec<u8>,
    config: &DisplayConfig,
    pixels: &[u8],
) -> (r: Result<(), PacketError>)
    ensures
        r is Ok <==> pixels@.len() == config.spec_pixel_count(),
        r is Ok ==> final(writer)@ == old(writer)@ + spec_hub75_packet(*config, pixels@),
        r matches Err(e) ==> e == (PacketError::LengthMismatch {
            expected: config.spec_pixel_count() as usize,
            actual: pixels@.len() as usize,
        }),
        r is Err ==> final(writer)@ == old(writer)@,
{
    let expected = config.pixel_count();
    if pixels.len() != expected {
        return Err(PacketError::LengthMismatch { expected, actual: pixels.len() });
    }
    proof {
        lemma_pixel_count_fits_u32(config.width, config.height);
    }
    let payload_len = pixels.len() as u32;
    let ghost start = writer@;
    let magic = HUB75_PACKET_MAGIC;
    push_all(writer, &magic);
    writer.push(HUB75_PACKET_VERSION);
    writer.push(origin_code(config.origin));
    writer.push(if config.serpentine { 1u8 } else { 0u8 });
    writer.push(config.brightness);
    push_le16(writer, config.width);
    push_le16(writer, config.height);
    push_le32(writer, payload_len);
    assert(writer@ =~= start + spec_hub75_header(*config, pixels@.len() as u32));
    push_all(writer, pixels);
    assert(writer@ =~= start + spec_hub75_packet(*config, pixels@));
    Ok(())
}

/// A packet is the 20-byte header followed by exactly one byte per pixel, and
/// its payload length always fits the 32-bit length field.
pub proof fn lemma_packet_length(config: DisplayConfig, pixels: Seq<u8>)
    requires
        pixels.len() == config.spec_pixel_count(),
    ensures
        pixels.len() <= u32::MAX,
        spec_hub75_packet(config, pixels).len() == HUB75_HEADER_LEN + config.spec_pixel_count(),
        spec_hub75_packet(config, pixels).subrange(20, 20 + pixels.len() as int) == pixels,
{
    lemma_pixel_count_fits_u32(config.width, config.height);
    let p = spec_hub75_packet(config, pixels);
    assert(p.subrange(20, 20 + pixels.len() as int) =~= pixels);
}

/// The helper reads back what the header carries: the magic, version, wiring,
/// brightness, width, height and payload length, each at its offset.
pub proof fn lemma_header_decodes(config: DisplayConfig, pixels: Seq<u8>)
    requires
        pixels.len() <= u32::MAX,
    ensures
        ({
            let p = spec_hub75_packet(config, pixels);
            &&& p.subrange(0, 8) == spec_magic()
            &&& p[8] == HUB75_PACKET_VERSION
            &&& p[9] == spec_origin_code(config.origin)
            &&& p[10] == flag_byte(config.serpentine)
            &&& p[11] == config.brightness
            &&& le16_value(p.subrange(12, 14)) == config.width
            &&& le16_value(p.subrange(14, 16)) == config.height
            &&& le32_value(p.subrange(16, 20)) == pixels.len()
        }),
{
    let p = spec_hub75_packet(config, pixels);
    assert(p.subrange(0, 8) =~= spec_magic());
    let w = config.width;
    let h = config.height;
    let n = pixels.len() as u32;
    assert(p.subrange(12, 14) =~= le16(w));
    assert(p.subrange(14, 16) =~= le16(h));
    assert(p.subrange(16, 20) =~= le32(n));
    assert(le32_value(le32(n)) == n);
}

} // verus!
