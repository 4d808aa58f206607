use neon_ffmpeg::channel::{channel_layout_nb_channels, in_channel_layout, out_channel_layout};

#[test]
fn layout_channel_counts() {
    assert_eq!(channel_layout_nb_channels(0), 0);
    assert_eq!(channel_layout_nb_channels(3), 2);
    assert_eq!(channel_layout_nb_channels(0x3F), 6);
    assert_eq!(channel_layout_nb_channels(1 << 63), 1);
    assert_eq!(channel_layout_nb_channels(u64::MAX), 64);
}

#[test]
fn in_layout_keeps_consistent_count() {
    assert_eq!(in_channel_layout(2, 3, 99), 2);
    assert_eq!(in_channel_layout(6, 0x3F, 0), 6);
}

#[test]
fn in_layout_falls_back_to_default() {
    assert_eq!(in_channel_layout(2, 4, 3), 3);
    assert_eq!(in_channel_layout(1, 0, -1), -1);
    assert_eq!(in_channel_layout(2, 1, (1i64 << 32) | 3), 3);
}

#[test]
fn out_layouts() {
    assert_eq!(out_channel_layout(1), 4);
    assert_eq!(out_channel_layout(2), 3);
    assert_eq!(out_channel_layout(6), 7);
    assert_eq!(out_channel_layout(0), 7);
    assert_eq!(channel_layout_nb_channels(out_channel_layout(1)), 1);
    assert_eq!(channel_layout_nb_channels(out_channel_layout(2)), 2);
    assert_eq!(channel_layout_nb_channels(out_channel_layout(5)), 3);
}
