//! The callback adapters: each takes one native event, copies it into owned
//! values and routes it through the registry, never waiting and never failing.
use crate::packets::{
    copy_bytes, decoder_packet, header_of, video_packet, Haptics, VideoFrame,
};
use crate::channels::Channel;
use crate::registry::ChannelRegistry;
use crate::statistics::StatisticsSink;
use vstd::prelude::*;

verus! {

/// What became of an event handed to an adapter.
#[derive(Clone, Copy, Debug, PartialEq, Eq)]
pub enum Delivery {
    /// No session was installed: the event was dropped.
    NoSession,
    /// The channel's receiving side was closed: the event was dropped.
    Closed,
    /// The channel accepted the event.
    Delivered,
}

/// The mirror log after `bytes` were offered to the mirror of `registry`:
/// extended when a mirror is installed, unchanged otherwise.
pub open spec fn mirrored(registry: ChannelRegistry, log: Seq<Seq<u8>>, bytes: Seq<u8>) -> Seq<
    Seq<u8>,
> {
    if registry.video_mirror_sender.is_some() {
        log.push(bytes)
    } else {
        log
    }
}

/// The hand-off order after a copy was offered to the mirror of `registry`.
pub open spec fn mirrored_events(registry: ChannelRegistry, events: Seq<Channel>) -> Seq<Channel> {
    if registry.video_mirror_sender.is_some() {
        events.push(Channel::Mirror)
    } else {
        events
    }
}

/// The outcome of a send that a session's channel accepted or refused.
pub fn delivery_of(accepted: bool) -> (r: Delivery)
    ensures
        r == (if accepted {
            Delivery::Delivered
        } else {
            Delivery::Closed
        }),
{
    if accepted {
        Delivery::Delivered
    } else {
        Delivery::Closed
    }
}

/// The session state that every adapter reads: the channel registry and the
/// optional statistics sink.
pub struct Bridge {
    pub registry: ChannelRegistry,
    pub statistics: Option<StatisticsSink>,
}

impl Bridge {
    /// The senders of `self` are those of `other`.
    pub open spec fn same_senders(&self, other: &Bridge) -> bool {
        self.registry.same_senders(&other.registry)
    }

    /// A bridge with no session and no statistics sink.
    pub fn new() -> (r: Bridge)
        ensures
            r.registry.is_empty(),
            r.registry.control_log().len() == 0,
            r.registry.video_log().len() == 0,
            r.registry.haptics_log().len() == 0,
            r.registry.mirror_log().len() == 0,
            r.registry.events().len() == 0,
            r.statistics.is_none(),
    {
        Bridge { registry: ChannelRegistry::new(), statistics: None }
    }

    /// Publishes an owned copy of `bytes` to the mirror, if one is installed.
    fn mirror(&mut self, bytes: &[u8])
        ensures
            final(self).statistics == old(self).statistics,
            final(self).same_senders(old(self)),
            final(self).registry.control_log() == old(self).registry.control_log(),
            final(self).registry.video_log() == old(self).registry.video_log(),
            final(self).registry.haptics_log() == old(self).registry.haptics_log(),
            final(self).registry.mirror_log() == mirrored(
                old(self).registry,
                old(self).registry.mirror_log(),
                bytes@,
            ),
            final(self).registry.events() == mirrored_events(
                old(self).registry,
                old(self).registry.events(),
            ),
    {
        if self.registry.video_mirror_sender.is_some() {
            let copy = copy_bytes(bytes);
            // no subscriber is not an error: the copy is simply not kept
            let _ = self.registry.publish_mirror(copy);
        }
    }

    /// Decoder-configuration adapter: mirrors the blob, then sends a
    /// decoder-initialisation message carrying it on the control channel.
    pub fn initialize_decoder(&mut self, buffer: &[u8]) -> (r: Delivery)
        ensures
            final(self).statistics == old(self).statistics,
            final(self).same_senders(old(self)),
            final(self).registry.video_log() == old(self).registry.video_log(),
            final(self).registry.haptics_log() == old(self).registry.haptics_log(),
            old(self).registry.control_sender.is_none() <==> r == Delivery::NoSession,
            r == Delivery::NoSession ==> final(self).registry.same_logs(&old(self).registry),
            r != Delivery::NoSession ==> final(self).registry.control_log()
                == old(self).registry.control_log().push(buffer@),
            r != Delivery::NoSession ==> final(self).registry.mirror_log() == mirrored(
                old(self).registry,
                old(self).registry.mirror_log(),
                buffer@,
            ),
            r != Delivery::NoSession ==> final(self).registry.events() == mirrored_events(
                old(self).registry,
                old(self).registry.events(),
            ).push(Channel::Control),
    {
        if self.registry.control_sender.is_none() {
            return Delivery::NoSession;
        }
        let packet = decoder_packet(buffer);
        self.mirror(buffer);
        let delivered = self.registry.send_control(packet);
        delivery_of(delivered)
    }

    /// Video-send adapter: mirrors the frame bytes, sends a `VideoPacket`
    /// with the converted header and an owned copy of the bytes, and reports
    /// the byte count to the statistics sink.
    pub fn video_send(&mut self, frame: VideoFrame, buffer: &[u8]) -> (r: Delivery)
        ensures
            final(self).same_senders(old(self)),
            final(self).registry.control_log() == old(self).registry.control_log(),
            final(self).registry.haptics_log() == old(self).registry.haptics_log(),
            old(self).registry.video_sender.is_none() <==> r == Delivery::NoSession,
            r == Delivery::NoSession ==> final(self).registry.same_logs(&old(self).registry)
                && final(self).statistics == old(self).statistics,
            r != Delivery::NoSession ==> final(self).registry.video_log()
                == old(self).registry.video_log().push((header_of(frame), buffer@)),
            r != Delivery::NoSession ==> final(self).registry.mirror_log() == mirrored(
                old(self).registry,
                old(self).registry.mirror_log(),
                buffer@,
            ),
            r != Delivery::NoSession ==> final(self).registry.events() == mirrored_events(
                old(self).registry,
                old(self).registry.events(),
            ).push(Channel::Video),
            r != Delivery::NoSession ==> match old(self).statistics {
                Some(s) => {
                    final(self).statistics == Some(
                        StatisticsSink {
                            video_bytes: crate::statistics::saturating_sum(
                                s.video_bytes,
                                buffer@.len() as int,
                            ),
                            video_packets: crate::statistics::saturating_sum(s.video_packets, 1),
                            ..s
                        },
                    )
                },
                None => final(self).statistics.is_none(),
            },
    {
        if self.registry.video_sender.is_none() {
            return Delivery::NoSession;
        }
        let packet = video_packet(frame, buffer);
        self.mirror(buffer);
        let delivered = self.registry.send_video(packet);
        if let Some(stats) = &mut self.statistics {
            stats.report_video_packet(buffer.len());
        }
        delivery_of(delivered)
    }

    /// Haptics-send adapter: builds a `Haptics` value from the four scalars
    /// and sends it on the haptics channel.
    pub fn haptics_send(
        &mut self,
        path: u64,
        duration_ns: u64,
        frequency_bits: u32,
        amplitude_bits: u32,
    ) -> (r: Delivery)
        ensures
            final(self).statistics == old(self).statistics,
            final(self).same_senders(old(self)),
            final(self).registry.control_log() == old(self).registry.control_log(),
            final(self).registry.video_log() == old(self).registry.video_log(),
            final(self).registry.mirror_log() == old(self).registry.mirror_log(),
            old(self).registry.haptics_sender.is_none() <==> r == Delivery::NoSession,
            r == Delivery::NoSession ==> final(self).registry.same_logs(&old(self).registry),
            r != Delivery::NoSession ==> final(self).registry.haptics_log()
                == old(self).registry.haptics_log().push(
                Haptics { path, duration_ns, frequency_bits, amplitude_bits },
            ),
            r != Delivery::NoSession ==> final(self).registry.events()
                == old(self).registry.events().push(Channel::Haptics),
    {
        if self.registry.haptics_sender.is_none() {
            return Delivery::NoSession;
        }
        let haptics = Haptics { path, duration_ns, frequency_bits, amplitude_bits };
        let delivered = self.registry.send_haptics(haptics);
        delivery_of(delivered)
    }

    /// Present-timestamp adapter: forwards the time to the statistics sink.
    pub fn report_present(&mut self, timestamp_ns: u64)
        ensures
            final(self).registry == old(self).registry,
            final(self).statistics == match old(self).statistics {
                Some(s) => Some(StatisticsSink { last_present_ns: Some(timestamp_ns), ..s }),
                None => None,
            },
    {
        if let Some(stats) = &mut self.statistics {
            stats.report_frame_present(timestamp_ns);
        }
    }

    /// Composed-timestamp adapter: forwards the time to the statistics sink.
    pub fn report_composed(&mut self, timestamp_ns: u64)
        ensures
            final(self).registry == old(self).registry,
            final(self).statistics == match old(self).statistics {
                Some(s) => Some(StatisticsSink { last_composed_ns: Some(timestamp_ns), ..s }),
                None => None,
            },
    {
        if let Some(stats) = &mut self.statistics {
            stats.report_frame_composed(timestamp_ns);
        }
    }

    /// Encoded-timestamp adapter: forwards the time to the statistics sink.
    pub fn report_encoded(&mut self, timestamp_ns: u64)
        ensures
            final(self).registry == old(self).registry,
            final(self).statistics == match old(self).statistics {
                Some(s) => Some(StatisticsSink { last_encoded_ns: Some(timestamp_ns), ..s }),
                None => None,
            },
    {
        if let Some(stats) = &mut self.statistics {
            stats.report_frame_encoded(timestamp_ns);
        }
    }

    /// FEC-failure adapter: forwards the percentage (0 to 100) to the
    /// statistics sink.
    pub fn report_fec_failure(&mut self, percentage: i32)
        requires
            0 <= percentage <= 100,
        ensures
            final(self).registry == old(self).registry,
            final(self).statistics == match old(self).statistics {
                Some(s) => Some(
                    StatisticsSink {
                        fec_failures: crate::statistics::saturating_sum(s.fec_failures, 1),
                        last_fec_percentage: Some(percentage as u32),
                        ..s
                    },
                ),
                None => None,
            },
    {
        if let Some(stats) = &mut self.statistics {
            stats.report_fec_failure(percentage as u32);
        }
    }
}

} // verus!
