//! What the two frame sinks compute before their output leaves the process:
//! the snapshot sink's raw device-order bytes and the HUB75 sink's packets.
//! Writing them to a file or to the helper's standard input is left to the
//! caller.

use vstd::prelude::*;
use std::path::PathBuf;
use crate::config::DisplayConfig;
use crate::frame::{
    FrameStats,
    blank_frame,
    encode_device_frame,
    frame_stats,
    spec_blank,
    spec_encode_device_frame,
    spec_frame_stats,
};
use crate::packet::{
    HUB75_HEADER_LEN,
    PacketError,
    lemma_packet_length,
    spec_hub75_header,
    spec_hub75_packet,
    write_hub75_packet,
};

verus! {

/// `std::path::PathBuf`, carried through as an opaque value.
#[verifier::external_type_specification]
#[verifier::external_body]
pub struct ExPathBuf(PathBuf);

/// A sink that renders frames as one byte per physical LED, in device-chain
/// order, and optionally keeps the latest one as a file snapshot.
pub struct SnapshotSink {
    snapshot_path: Option<PathBuf>,
}

impl SnapshotSink {
    /// The path of the snapshot file, if snapshots are kept.
    pub closed spec fn spec_snapshot_path(&self) -> Option<PathBuf> {
        self.snapshot_path
    }

    /// A sink that writes its snapshots to `snapshot_path`, or keeps none.
    pub fn new(snapshot_path: Option<PathBuf>) -> (s: Self)
        ensures
            s.spec_snapshot_path() == snapshot_path,
    {
        SnapshotSink { snapshot_path }
    }

    /// Where snapshots go, if anywhere.
    pub fn snapshot_path(&self) -> (p: Option<&PathBuf>)
        ensures
            p == match self.spec_snapshot_path() {
                Some(q) => Some(&q),
                None => None::<&PathBuf>,
            },
    {
        match &self.snapshot_path {
            Some(p) => Some(p),
            None => None,
        }
    }

    /// The snapshot of a frame given in device order, and its statistics: the
    /// bytes are the device pixels scaled to the configured brightness, and
    /// the statistics count those bytes.
    pub fn present(&self, config: &DisplayConfig, device_pixels: &[u8]) -> (r: (
        Vec<u8>,
        FrameStats,
    ))
        ensures
            r.0@ == spec_encode_device_frame(config.brightness, device_pixels@),
            r.1 == spec_frame_stats(r.0@),
    {
        let pixels = encode_device_frame(config, device_pixels);
        let stats = frame_stats(pixels.as_slice());
        (pixels, stats)
    }

    /// The snapshot of a dark matrix: one zero byte per pixel.
    pub fn clear(&self, config: &DisplayConfig) -> (r: Vec<u8>)
        ensures
            r@ == spec_blank(config.spec_pixel_count()),
    {
        blank_frame(config)
    }
}

/// The packet that shows a row-major frame on the HUB75 helper, and the
/// statistics of that frame. Fails, as the packet does, when the frame does
/// not hold one byte per pixel.
pub fn hub75_present(config: &DisplayConfig, row_major: &[u8]) -> (r: Result<
    (Vec<u8>, FrameStats),
    PacketError,
>)
    ensures
        r is Ok <==> row_major@.len() == config.spec_pixel_count(),
        r matches Ok((packet, stats)) ==> {
            &&& packet@ == spec_hub75_packet(*config, row_major@)
            &&& packet@.len() == HUB75_HEADER_LEN + row_major@.len()
            &&& packet@.subrange(HUB75_HEADER_LEN as int, packet@.len() as int) == row_major@
            &&& stats == spec_frame_stats(row_major@)
        },
        r matches Err(e) ==> e == (PacketError::LengthMismatch {
            expected: config.spec_pixel_count() as usize,
            actual: row_major@.len() as usize,
        }),
{
    let mut packet: Vec<u8> = Vec::new();
    match write_hub75_packet(&mut packet, config, row_major) {
        Ok(()) => {
            assert(packet@ =~= spec_hub75_packet(*config, row_major@));
            proof {
                lemma_packet_length(*config, row_major@);
            }
            Ok((packet, frame_stats(row_major)))
        },
        Err(e) => Err(e),
    }
}

/// The packet that blanks the HUB75 matrix: one zero byte per pixel.
pub fn hub75_clear(config: &DisplayConfig) -> (packet: Vec<u8>)
    ensures
        packet@ == spec_hub75_packet(*config, spec_blank(config.spec_pixel_count())),
{
    let pixels = blank_frame(config);
    let mut packet: Vec<u8> = Vec::new();
    let r = write_hub75_packet(&mut packet, config, pixels.as_slice());
    assert(r is Ok);
    assert(packet@ =~= spec_hub75_packet(*config, spec_blank(config.spec_pixel_count())));
    packet
}

/// What the HUB75 helper receives for a frame of the configured size: the
/// header for that frame, then the frame's logical row-major pixels exactly as
/// given (neither reordered into device order nor scaled to the brightness);
/// and the statistics reported count those same pixels.
pub proof fn lemma_hub75_frame_is_unscaled_row_major(config: DisplayConfig, row_major: Seq<u8>)
    requires
        row_major.len() == config.spec_pixel_count(),
    ensures
        spec_hub75_packet(config, row_major) == spec_hub75_header(config, row_major.len() as u32)
            + row_major,
        spec_hub75_packet(config, row_major).len() == HUB75_HEADER_LEN + row_major.len(),
        spec_hub75_packet(config, row_major).subrange(
            HUB75_HEADER_LEN as int,
            HUB75_HEADER_LEN + row_major.len(),
        ) == row_major,
        spec_frame_stats(row_major).pixels == row_major.len(),
{
    lemma_packet_length(config, row_major);
}

} // verus!
