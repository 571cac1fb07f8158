//! Raw sample ingestion for the statistics path.
use vstd::prelude::*;

verus! {

/// `a + b`, or `u64::MAX` where the sum does not fit.
pub open spec fn saturating_sum(a: u64, b: int) -> u64 {
    if a + b > u64::MAX {
        u64::MAX
    } else {
        (a + b) as u64
    }
}

/// Counters and latest timestamps, one per kind of sample.
#[derive(Clone, Copy, Debug, PartialEq, Eq)]
pub struct StatisticsSink {
    /// Bytes of video payload reported (saturating).
    pub video_bytes: u64,
    /// Video packets reported (saturating).
    pub video_packets: u64,
    pub last_present_ns: Option<u64>,
    pub last_composed_ns: Option<u64>,
    pub last_encoded_ns: Option<u64>,
    /// FEC failures reported (saturating).
    pub fec_failures: u64,
    pub last_fec_percentage: Option<u32>,
}

impl StatisticsSink {
    /// A sink with every counter at zero and no timestamp.
    pub fn new() -> (r: StatisticsSink)
        ensures
            r.video_bytes == 0,
            r.video_packets == 0,
            r.last_present_ns.is_none(),
            r.last_composed_ns.is_none(),
            r.last_encoded_ns.is_none(),
            r.fec_failures == 0,
            r.last_fec_percentage.is_none(),
    {
        StatisticsSink {
            video_bytes: 0,
            video_packets: 0,
            last_present_ns: None,
            last_composed_ns: None,
            last_encoded_ns: None,
            fec_failures: 0,
            last_fec_percentage: None,
        }
    }

    /// Adds one video packet of `bytes` bytes.
    pub fn report_video_packet(&mut self, bytes: usize)
        ensures
            *final(self) == (StatisticsSink {
                video_bytes: saturating_sum(old(self).video_bytes, bytes as int),
                video_packets: saturating_sum(old(self).video_packets, 1),
                ..*old(self)
            }),
    {
        self.video_bytes = self.video_bytes.saturating_add(bytes as u64);
        self.video_packets = self.video_packets.saturating_add(1);
    }

    /// Records the time a frame was presented.
    pub fn report_frame_present(&mut self, timestamp_ns: u64)
        ensures
            *final(self) == (StatisticsSink { last_present_ns: Some(timestamp_ns), ..*old(self) }),
    {
        self.last_present_ns = Some(timestamp_ns);
    }

    /// Records the time a frame was composed.
    pub fn report_frame_composed(&mut self, timestamp_ns: u64)
        ensures
            *final(self) == (StatisticsSink { last_composed_ns: Some(timestamp_ns), ..*old(self) }),
    {
        self.last_composed_ns = Some(timestamp_ns);
    }

    /// Records the time a frame was encoded.
    pub fn report_frame_encoded(&mut self, timestamp_ns: u64)
        ensures
            *final(self) == (StatisticsSink { last_encoded_ns: Some(timestamp_ns), ..*old(self) }),
    {
        self.last_encoded_ns = Some(timestamp_ns);
    }

    /// Records one FEC failure with its percentage.
    pub fn report_fec_failure(&mut self, percentage: u32)
        ensures
            *final(self) == (StatisticsSink {
                fec_failures: saturating_sum(old(self).fec_failures, 1),
                last_fec_percentage: Some(percentage),
                ..*old(self)
            }),
    {
        self.fec_failures = self.fec_failures.saturating_add(1);
        self.last_fec_percentage = Some(percentage);
    }
}

} // verus!
