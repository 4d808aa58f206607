use neon_ffmpeg::stream::{best_stream_index, classify_packet, media_type_from_code, MediaType, PacketKind};

#[test]
fn media_type_codes() {
    assert_eq!(media_type_from_code(0), MediaType::Video);
    assert_eq!(media_type_from_code(1), MediaType::Audio);
    assert_eq!(media_type_from_code(2), MediaType::Data);
    assert_eq!(media_type_from_code(3), MediaType::Subtitle);
    assert_eq!(media_type_from_code(4), MediaType::Unknown);
    assert_eq!(media_type_from_code(u32::MAX), MediaType::Unknown);
}

#[test]
fn best_stream_errors_become_minus_one() {
    assert_eq!(best_stream_index(-1_381_258_232), -1);
    assert_eq!(best_stream_index(-1), -1);
    assert_eq!(best_stream_index(0), 0);
    assert_eq!(best_stream_index(3), 3);
}

#[test]
fn packets_routed_video_first() {
    assert_eq!(classify_packet(0, 0, 1, 2), PacketKind::Video);
    assert_eq!(classify_packet(1, 0, 1, 2), PacketKind::Audio);
    assert_eq!(classify_packet(2, 0, 1, 2), PacketKind::Subtitle);
    assert_eq!(classify_packet(3, 0, 1, 2), PacketKind::Other);
    assert_eq!(classify_packet(1, 1, 1, 1), PacketKind::Video);
    assert_eq!(classify_packet(1, -1, 1, 1), PacketKind::Audio);
    assert_eq!(classify_packet(-1, -1, 1, 2), PacketKind::Video);
}

#[test]
fn stream_indices_taken_to_32_bits() {
    let wide: isize = ((1i64 << 32) + 2) as isize;
    assert_eq!(classify_packet(2, wide, 0, 1), PacketKind::Video);
}
