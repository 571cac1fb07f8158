use vstd::prelude::*;

verus! {

/// Frame header as the native encoder hands it over, field for field.
#[derive(Clone, Copy, Debug, PartialEq, Eq)]
pub struct VideoFrame {
    pub packet_counter: u32,
    pub tracking_frame_index: u64,
    pub video_frame_index: u64,
    pub sent_time: u64,
    pub frame_byte_size: u32,
    pub fec_index: u32,
    pub fec_percentage: u16,
}

/// Header of a video packet as it travels to the network layer.
#[derive(Clone, Copy, Debug, PartialEq, Eq)]
pub struct VideoFrameHeaderPacket {
    pub packet_counter: u32,
    pub tracking_frame_index: u64,
    pub video_frame_index: u64,
    pub sent_time: u64,
    pub frame_byte_size: u32,
    pub fec_index: u32,
    pub fec_percentage: u16,
}

/// An encoded video packet: header plus an owned copy of the frame bytes.
#[derive(Debug)]
pub struct VideoPacket {
    pub header: VideoFrameHeaderPacket,
    pub payload: Vec<u8>,
}

/// A haptic command. Frequency and amplitude are carried as the bit patterns
/// of the native single-precision values; the duration is in nanoseconds.
#[derive(Clone, Copy, Debug, PartialEq, Eq)]
pub struct Haptics {
    pub path: u64,
    pub duration_ns: u64,
    pub frequency_bits: u32,
    pub amplitude_bits: u32,
}

/// Session-control messages produced by the bridge.
#[derive(Debug)]
pub enum ServerControlPacket {
    InitializeDecoder { config_buffer: Vec<u8> },
}

/// The header that a native frame header maps to: every field carried over.
pub open spec fn header_of(f: VideoFrame) -> VideoFrameHeaderPacket {
    VideoFrameHeaderPacket {
        packet_counter: f.packet_counter,
        tracking_frame_index: f.tracking_frame_index,
        video_frame_index: f.video_frame_index,
        sent_time: f.sent_time,
        frame_byte_size: f.frame_byte_size,
        fec_index: f.fec_index,
        fec_percentage: f.fec_percentage,
    }
}

/// Converts a native frame header into the packet header.
pub fn header_from_frame(f: VideoFrame) -> (r: VideoFrameHeaderPacket)
    ensures
        r == header_of(f),
{
    VideoFrameHeaderPacket {
        packet_counter: f.packet_counter,
        tracking_frame_index: f.tracking_frame_index,
        video_frame_index: f.video_frame_index,
        sent_time: f.sent_time,
        frame_byte_size: f.frame_byte_size,
        fec_index: f.fec_index,
        fec_percentage: f.fec_percentage,
    }
}

/// The bytes that a control message carries.
pub open spec fn control_payload(p: ServerControlPacket) -> Seq<u8> {
    match p {
        ServerControlPacket::InitializeDecoder { config_buffer } => config_buffer@,
    }
}

/// Copies a byte buffer into owned storage.
pub fn copy_bytes(buffer: &[u8]) -> (r: Vec<u8>)
    ensures
        r@ == buffer@,
{
    let mut out: Vec<u8> = Vec::with_capacity(buffer.len());
    let mut i: usize = 0;
    while i < buffer.len()
        invariant
            i <= buffer@.len(),
            out@ == buffer@.subrange(0, i as int),
        decreases buffer@.len() - i,
    {
        out.push(buffer[i]);
        i = i + 1;
    }
    assert(out@ == buffer@);
    out
}

/// The video packet for a native frame: the converted header and an owned
/// copy of the frame bytes.
pub fn video_packet(frame: VideoFrame, buffer: &[u8]) -> (r: VideoPacket)
    ensures
        r.header == header_of(frame),
        r.payload@ == buffer@,
{
    VideoPacket { header: header_from_frame(frame), payload: copy_bytes(buffer) }
}

/// The decoder-initialisation message carrying an owned copy of `buffer`.
pub fn decoder_packet(buffer: &[u8]) -> (r: ServerControlPacket)
    ensures
        control_payload(r) == buffer@,
{
    ServerControlPacket::InitializeDecoder { config_buffer: copy_bytes(buffer) }
}

} // verus!
