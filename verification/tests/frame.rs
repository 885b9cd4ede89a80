use leddy_rasp_pi::config::{DisplayConfig, PixelOrigin};
use leddy_rasp_pi::frame::{blank_frame, encode_device_frame, frame_stats, FrameStats};
use leddy_rasp_pi::sink::SnapshotSink;
use std::path::PathBuf;

fn config() -> DisplayConfig {
    DisplayConfig {
        width: 3,
        height: 2,
        brightness: 96,
        serpentine: true,
        origin: PixelOrigin::TopLeft,
    }
}

#[test]
fn device_order_frame_is_scaled_to_brightness() {
    // A 3 x 2 serpentine frame lit at (0, 0) and (0, 1), in device-chain order.
    let device_order = [255, 0, 0, 0, 0, 255];
    assert_eq!(encode_device_frame(&config(), &device_order), vec![96, 0, 0, 0, 0, 96]);
}

#[test]
fn any_lit_pixel_takes_the_configured_brightness() {
    let mut config = config();
    config.brightness = 7;
    assert_eq!(encode_device_frame(&config, &[1, 0, 200, 255]), vec![7, 0, 7, 7]);
    config.brightness = 0;
    assert_eq!(encode_device_frame(&config, &[1, 0, 200]), vec![0, 0, 0]);
}

#[test]
fn stats_count_pixels_and_lit_pixels() {
    assert_eq!(frame_stats(&[0, 3, 0, 9]), FrameStats { pixels: 4, lit_pixels: 2 });
    assert_eq!(frame_stats(&[]), FrameStats { pixels: 0, lit_pixels: 0 });
}

#[test]
fn blank_frame_has_one_dark_byte_per_pixel() {
    assert_eq!(blank_frame(&config()), vec![0; 6]);
}

#[test]
fn snapshot_sink_keeps_its_path_and_renders_scaled_bytes() {
    let sink = SnapshotSink::new(Some(PathBuf::from("/tmp/leddy-frame.bin")));
    assert_eq!(sink.snapshot_path(), Some(&PathBuf::from("/tmp/leddy-frame.bin")));
    let (bytes, stats) = sink.present(&config(), &[255, 0, 0, 0, 0, 255]);
    assert_eq!(bytes, vec![96, 0, 0, 0, 0, 96]);
    assert_eq!(stats, FrameStats { pixels: 6, lit_pixels: 2 });
    assert_eq!(sink.clear(&config()), vec![0; 6]);
    assert_eq!(SnapshotSink::new(None).snapshot_path(), None);
}

#[test]
fn snapshot_stats_count_scaled_pixels() {
    let mut config = config();
    config.brightness = 0;
    let sink = SnapshotSink::new(None);
    let (bytes, stats) = sink.present(&config, &[1, 1, 0]);
    assert_eq!(bytes, vec![0, 0, 0]);
    assert_eq!(stats, FrameStats { pixels: 3, lit_pixels: 0 });
}
