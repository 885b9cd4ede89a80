use leddy_rasp_pi::config::{DisplayConfig, ErrorKind, PixelOrigin};
use leddy_rasp_pi::packet::{
    write_hub75_packet, PacketError, HUB75_HEADER_LEN, HUB75_PACKET_MAGIC, HUB75_PACKET_VERSION,
};
use leddy_rasp_pi::sink::{hub75_clear, hub75_present};

fn config() -> DisplayConfig {
    DisplayConfig {
        width: 3,
        height: 2,
        brightness: 96,
        serpentine: true,
        origin: PixelOrigin::TopLeft,
    }
}

#[test]
fn hub75_packet_keeps_logical_row_major_pixels_and_wiring_metadata() {
    let mut config = config();
    config.origin = PixelOrigin::BottomRight;
    let pixels = vec![1, 2, 3, 4, 5, 6];
    let mut packet = Vec::new();
    write_hub75_packet(&mut packet, &config, &pixels).expect("packet");

    assert_eq!(&packet[0..8], HUB75_PACKET_MAGIC);
    assert_eq!(packet[8], HUB75_PACKET_VERSION);
    assert_eq!(packet[9], 3);
    assert_eq!(packet[10], 1);
    assert_eq!(packet[11], 96);
    assert_eq!(u16::from_le_bytes([packet[12], packet[13]]), 3);
    assert_eq!(u16::from_le_bytes([packet[14], packet[15]]), 2);
    assert_eq!(u32::from_le_bytes([packet[16], packet[17], packet[18], packet[19]]), 6);
    assert_eq!(&packet[20..], pixels.as_slice());
}

#[test]
fn hub75_packet_rejects_mismatched_frame_length() {
    let mut packet = Vec::new();
    let error = write_hub75_packet(&mut packet, &config(), &[1, 2, 3]).unwrap_err();
    assert_eq!(error.kind(), ErrorKind::InvalidInput);
}

#[test]
fn rejected_packet_writes_nothing_and_names_both_lengths() {
    let mut packet = vec![7u8, 8];
    let error = write_hub75_packet(&mut packet, &config(), &[1, 2, 3]).unwrap_err();
    assert_eq!(error, PacketError::LengthMismatch { expected: 6, actual: 3 });
    assert_eq!(packet, vec![7u8, 8]);
}

#[test]
fn packet_is_appended_after_existing_bytes() {
    let mut packet = vec![9u8];
    write_hub75_packet(&mut packet, &config(), &[0, 0, 0, 0, 0, 0]).expect("packet");
    assert_eq!(packet.len(), 1 + HUB75_HEADER_LEN + 6);
    assert_eq!(packet[0], 9);
    assert_eq!(&packet[1..9], b"LEDDYF01");
}

#[test]
fn packet_encodes_each_origin_code_and_flat_wiring() {
    let origins = [
        (PixelOrigin::TopLeft, 0u8),
        (PixelOrigin::TopRight, 1),
        (PixelOrigin::BottomLeft, 2),
        (PixelOrigin::BottomRight, 3),
    ];
    for (origin, code) in origins {
        let mut config = config();
        config.origin = origin;
        config.serpentine = false;
        let mut packet = Vec::new();
        write_hub75_packet(&mut packet, &config, &[0; 6]).expect("packet");
        assert_eq!(packet[9], code);
        assert_eq!(packet[10], 0);
    }
}

#[test]
fn packet_header_is_little_endian_for_a_full_size_panel() {
    let config = DisplayConfig {
        width: 300,
        height: 20,
        brightness: 255,
        serpentine: true,
        origin: PixelOrigin::TopLeft,
    };
    let pixels = vec![5u8; 6000];
    let mut packet = Vec::new();
    write_hub75_packet(&mut packet, &config, &pixels).expect("packet");
    assert_eq!(&packet[12..14], &[0x2c, 0x01]);
    assert_eq!(&packet[14..16], &[20, 0]);
    assert_eq!(&packet[16..20], &[0x70, 0x17, 0, 0]);
    assert_eq!(packet.len(), 6020);
}

#[test]
fn hub75_present_reports_unscaled_stats() {
    let (packet, stats) = hub75_present(&config(), &[0, 4, 0, 0, 9, 0]).expect("present");
    assert_eq!(stats.pixels, 6);
    assert_eq!(stats.lit_pixels, 2);
    assert_eq!(&packet[20..], &[0, 4, 0, 0, 9, 0]);
    assert!(hub75_present(&config(), &[1]).is_err());
}

#[test]
fn hub75_clear_sends_a_dark_frame() {
    let packet = hub75_clear(&config());
    assert_eq!(packet.len(), 26);
    assert_eq!(u32::from_le_bytes([packet[16], packet[17], packet[18], packet[19]]), 6);
    assert!(packet[20..].iter().all(|p| *p == 0));
}

#[test]
fn hub75_payload_is_row_major_and_unscaled() {
    let mut config = config();
    config.brightness = 10;
    let row_major = [0u8, 200, 255, 1, 0, 7];
    let (packet, stats) = hub75_present(&config, &row_major).expect("present");
    assert_eq!(packet.len(), HUB75_HEADER_LEN + 6);
    assert_eq!(&packet[HUB75_HEADER_LEN..], &row_major);
    assert_eq!(stats.lit_pixels, 4);
}
