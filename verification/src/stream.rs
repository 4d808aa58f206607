use vstd::prelude::*;

verus! {

/// The kind of media a stream carries, as the JavaScript side names it by
/// number.
#[derive(Clone, Copy, Debug, PartialEq, Eq)]
pub enum MediaType {
    Video,
    Audio,
    Data,
    Subtitle,
    Unknown,
}

/// The media type that a number from JavaScript selects: 0 video, 1 audio,
/// 2 data, 3 subtitle, anything else unknown.
pub open spec fn media_type_of(code: u32) -> MediaType {
    if code == 0 {
        MediaType::Video
    } else if code == 1 {
        MediaType::Audio
    } else if code == 2 {
        MediaType::Data
    } else if code == 3 {
        MediaType::Subtitle
    } else {
        MediaType::Unknown
    }
}

/// Maps the media-type number given to `av_find_best_stream` to its type.
pub fn media_type_from_code(code: u32) -> (t: MediaType)
    ensures
        t == media_type_of(code),
{
    match code {
        0 => MediaType::Video,
        1 => MediaType::Audio,
        2 => MediaType::Data,
        3 => MediaType::Subtitle,
        _ => MediaType::Unknown,
    }
}

/// The stream index reported for the result of a best-stream search: any
/// error code becomes -1, an index is kept.
pub fn best_stream_index(found: i32) -> (index: i32)
    ensures
        found < 0 ==> index == -1,
        found >= 0 ==> index == found,
{
    if found < 0 {
        -1
    } else {
        found
    }
}

/// Which of the selected streams a packet belongs to.
#[derive(Clone, Copy, Debug, PartialEq, Eq)]
pub enum PacketKind {
    Video,
    Audio,
    Subtitle,
    Other,
}

/// The stream a packet is routed to: the video stream is tested first, then
/// the audio stream, then the subtitle stream; each selected index is taken
/// to 32 bits before the comparison.
pub open spec fn packet_kind(stream_index: i32, vstream: isize, astream: isize, sstream: isize) -> PacketKind {
    if stream_index == vstream as i32 {
        PacketKind::Video
    } else if stream_index == astream as i32 {
        PacketKind::Audio
    } else if stream_index == sstream as i32 {
        PacketKind::Subtitle
    } else {
        PacketKind::Other
    }
}

/// Routes a packet read from the container to the decoder of its stream.
pub fn classify_packet(stream_index: i32, vstream: isize, astream: isize, sstream: isize) -> (k: PacketKind)
    ensures
        k == packet_kind(stream_index, vstream, astream, sstream),
        stream_index == vstream as i32 ==> k == PacketKind::Video,
        stream_index != vstream as i32 && stream_index == astream as i32 ==> k == PacketKind::Audio,
        stream_index != vstream as i32 && stream_index != astream as i32 && stream_index == sstream as i32
            ==> k == PacketKind::Subtitle,
        stream_index != vstream as i32 && stream_index != astream as i32 && stream_index != sstream as i32
            ==> k == PacketKind::Other,
{
    if stream_index == vstream as i32 {
        PacketKind::Video
    } else if stream_index == astream as i32 {
        PacketKind::Audio
    } else if stream_index == sstream as i32 {
        PacketKind::Subtitle
    } else {
        PacketKind::Other
    }
}

/// A packet goes to the first selected stream whose index (taken to 32
/// bits) it carries, testing video, then audio, then subtitle; a packet of
/// no selected stream goes nowhere. Any index counts, 0 included.
pub proof fn lemma_packet_routing(stream_index: i32, vstream: isize, astream: isize, sstream: isize)
    ensures
        stream_index == vstream as i32 ==> packet_kind(stream_index, vstream, astream, sstream)
            == PacketKind::Video,
        stream_index != vstream as i32 && stream_index == astream as i32 ==> packet_kind(
            stream_index,
            vstream,
            astream,
            sstream,
        ) == PacketKind::Audio,
        stream_index != vstream as i32 && stream_index != astream as i32 && stream_index == sstream as i32
            ==> packet_kind(stream_index, vstream, astream, sstream) == PacketKind::Subtitle,
        (packet_kind(stream_index, vstream, astream, sstream) == PacketKind::Other) <==> (stream_index
            != vstream as i32 && stream_index != astream as i32 && stream_index != sstream as i32),
{
}

} // verus!
