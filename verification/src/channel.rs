use vstd::prelude::*;

verus! {

/// Channel-layout bit of the front-left speaker (`AV_CH_FRONT_LEFT`).
pub const CH_FRONT_LEFT: u64 = 1u64;

/// Channel-layout bit of the front-right speaker (`AV_CH_FRONT_RIGHT`).
pub const CH_FRONT_RIGHT: u64 = 2u64;

/// Channel-layout bit of the front-center speaker (`AV_CH_FRONT_CENTER`).
pub const CH_FRONT_CENTER: u64 = 4u64;

/// The number of set bits among the lowest `n` bits of `x`.
pub open spec fn bits_set(x: nat, n: nat) -> nat
    decreases n,
{
    if n == 0 {
        0
    } else {
        (x % 2) + bits_set(x / 2, (n - 1) as nat)
    }
}

/// The number of channels of a 64-bit channel layout: its set bits.
pub open spec fn layout_channels(layout: u64) -> nat {
    bits_set(layout as nat, 64)
}

/// Counts the channels of a channel layout, as
/// `av_get_channel_layout_nb_channels` does (the population count of the
/// layout's 64 bits).
pub fn channel_layout_nb_channels(layout: u64) -> (n: i32)
    ensures
        n == layout_channels(layout),
        0 <= n <= 64,
{
    let mut x: u64 = layout;
    let mut count: i32 = 0;
    let mut i: u32 = 0;
    while i < 64
        invariant
            i <= 64,
            0 <= count <= i,
            count + bits_set(x as nat, (64 - i) as nat) == layout_channels(layout),
        decreases 64 - i,
    {
        count = count + (x % 2) as i32;
        x = x / 2;
        i = i + 1;
    }
    count
}

/// The input layout value handed to the resampler: the codec's channel count
/// when its layout has that many channels, otherwise FFmpeg's default layout
/// for that count, taken to 32 bits.
pub open spec fn chosen_in_layout(channels: i32, layout: u64, default_layout: i64) -> i32 {
    if channels == layout_channels(layout) {
        channels
    } else {
        default_layout as i32
    }
}

/// Chooses the input layout value of a resampler from the decoder's channel
/// count, its channel layout, and `av_get_default_channel_layout(channels)`.
pub fn in_channel_layout(channels: i32, layout: u64, default_layout: i64) -> (l: i32)
    ensures
        l == chosen_in_layout(channels, layout, default_layout),
{
    let layout_count = channel_layout_nb_channels(layout);
    if channels == layout_count {
        channels
    } else {
        default_layout as i32
    }
}

/// The output layout for a channel count: mono is front center, stereo is
/// front left and right, anything else all three.
pub open spec fn out_layout_for(out_channels: i32) -> u64 {
    if out_channels == 1 {
        CH_FRONT_CENTER
    } else if out_channels == 2 {
        CH_FRONT_LEFT | CH_FRONT_RIGHT
    } else {
        CH_FRONT_LEFT | CH_FRONT_RIGHT | CH_FRONT_CENTER
    }
}

/// Chooses the output channel layout of a resampler.
pub fn out_channel_layout(out_channels: i32) -> (l: u64)
    ensures
        l == out_layout_for(out_channels),
{
    if out_channels == 1 {
        CH_FRONT_CENTER
    } else if out_channels == 2 {
        CH_FRONT_LEFT | CH_FRONT_RIGHT
    } else {
        CH_FRONT_LEFT | CH_FRONT_RIGHT | CH_FRONT_CENTER
    }
}

/// No bit of zero is set, however many bits are counted.
pub proof fn lemma_bits_set_zero(n: nat)
    ensures
        bits_set(0, n) == 0,
    decreases n,
{
    if n > 0 {
        lemma_bits_set_zero((n - 1) as nat);
    }
}

/// The output layout has one channel for mono, two for stereo and three
/// for any other channel count.
pub proof fn lemma_out_layout_channels(out_channels: i32)
    ensures
        layout_channels(out_layout_for(out_channels)) == if out_channels == 1 {
            1nat
        } else if out_channels == 2 {
            2nat
        } else {
            3nat
        },
{
    assert(CH_FRONT_LEFT | CH_FRONT_RIGHT == 3u64) by (bit_vector);
    assert(CH_FRONT_LEFT | CH_FRONT_RIGHT | CH_FRONT_CENTER == 7u64) by (bit_vector);
    lemma_bits_set_zero(61);
    reveal_with_fuel(bits_set, 4);
    assert(bits_set(1, 62) == 1);
    assert(bits_set(2, 63) == 1);
    assert(bits_set(4, 64) == 1);
    assert(bits_set(3, 64) == 2);
    assert(bits_set(7, 64) == 3);
}

/// When the decoder's layout has as many channels as it claims, the input
/// layout value is that channel count.
pub proof fn lemma_consistent_layout(channels: i32, layout: u64, default_layout: i64)
    requires
        channels == layout_channels(layout),
    ensures
        chosen_in_layout(channels, layout, default_layout) == channels,
        chosen_in_layout(channels, layout, default_layout) >= 0,
{
}

} // verus!
