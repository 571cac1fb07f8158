//! The set of channel endpoints of the current session.
use crate::packets::{
    control_payload, Haptics, ServerControlPacket, VideoFrameHeaderPacket, VideoPacket,
};
use crate::channels::{Channel, HandOffLog};
use tokio::sync::broadcast;
use tokio::sync::mpsc::UnboundedSender;
use vstd::prelude::*;

verus! {

/// One slot per outgoing stream. Every slot holds a sender exactly while a
/// session is installed. The ghost logs record, in order, each message handed
/// to a channel through this registry, whether or not its receiver took it;
/// only the send methods below extend them.
pub struct ChannelRegistry {
    pub control_sender: Option<UnboundedSender<ServerControlPacket>>,
    pub video_sender: Option<UnboundedSender<VideoPacket>>,
    pub haptics_sender: Option<UnboundedSender<Haptics>>,
    pub video_mirror_sender: Option<broadcast::Sender<Vec<u8>>>,
    /// What was handed to each channel.
    pub logs: HandOffLog,
}

impl ChannelRegistry {
    /// No slot holds a sender.
    pub open spec fn is_empty(&self) -> bool {
        &&& self.control_sender.is_none()
        &&& self.video_sender.is_none()
        &&& self.haptics_sender.is_none()
        &&& self.video_mirror_sender.is_none()
    }

    /// Every slot holds a sender.
    pub open spec fn is_installed(&self) -> bool {
        &&& self.control_sender.is_some()
        &&& self.video_sender.is_some()
        &&& self.haptics_sender.is_some()
        &&& self.video_mirror_sender.is_some()
    }

    /// Decoder configurations handed to the control channel.
    pub open spec fn control_log(&self) -> Seq<Seq<u8>> {
        self.logs.control()
    }

    /// Video packets handed to the video channel, as header and payload.
    pub open spec fn video_log(&self) -> Seq<(VideoFrameHeaderPacket, Seq<u8>)> {
        self.logs.video()
    }

    /// Haptic commands handed to the haptics channel.
    pub open spec fn haptics_log(&self) -> Seq<Haptics> {
        self.logs.haptics()
    }

    /// Byte copies handed to the mirror broadcast.
    pub open spec fn mirror_log(&self) -> Seq<Seq<u8>> {
        self.logs.mirror()
    }

    /// The channel of every hand-off, across all channels, in order.
    pub open spec fn events(&self) -> Seq<Channel> {
        self.logs.events()
    }

    /// The senders of `self` are those of `other`.
    pub open spec fn same_senders(&self, other: &ChannelRegistry) -> bool {
        &&& self.control_sender == other.control_sender
        &&& self.video_sender == other.video_sender
        &&& self.haptics_sender == other.haptics_sender
        &&& self.video_mirror_sender == other.video_mirror_sender
    }

    /// The logs of `self` equal those of `other`.
    pub open spec fn same_logs(&self, other: &ChannelRegistry) -> bool {
        &&& self.control_log() == other.control_log()
        &&& self.video_log() == other.video_log()
        &&& self.haptics_log() == other.haptics_log()
        &&& self.mirror_log() == other.mirror_log()
        &&& self.events() == other.events()
    }

    /// The registry with every slot emptied and the logs kept.
    pub open spec fn cleared(self) -> ChannelRegistry {
        ChannelRegistry {
            control_sender: None,
            video_sender: None,
            haptics_sender: None,
            video_mirror_sender: None,
            ..self
        }
    }

    /// A registry with no session and empty logs.
    pub fn new() -> (r: ChannelRegistry)
        ensures
            r.is_empty(),
            r.control_log().len() == 0,
            r.video_log().len() == 0,
            r.haptics_log().len() == 0,
            r.mirror_log().len() == 0,
            r.events().len() == 0,
    {
        ChannelRegistry {
            control_sender: None,
            video_sender: None,
            haptics_sender: None,
            video_mirror_sender: None,
            logs: HandOffLog::new(),
        }
    }

    /// Stores the four senders of a new session, replacing whatever was there.
    pub fn install(
        &mut self,
        control: UnboundedSender<ServerControlPacket>,
        video: UnboundedSender<VideoPacket>,
        haptics: UnboundedSender<Haptics>,
        mirror: broadcast::Sender<Vec<u8>>,
    )
        ensures
            final(self).is_installed(),
            final(self).control_sender == Some(control),
            final(self).video_sender == Some(video),
            final(self).haptics_sender == Some(haptics),
            final(self).video_mirror_sender == Some(mirror),
            final(self).same_logs(old(self)),
    {
        self.control_sender = Some(control);
        self.video_sender = Some(video);
        self.haptics_sender = Some(haptics);
        self.video_mirror_sender = Some(mirror);
    }

    /// Removes and drops every sender, which closes the session's channels.
    pub fn teardown(&mut self)
        ensures
            *final(self) == old(self).cleared(),
            final(self).is_empty(),
            final(self).same_logs(old(self)),
    {
        self.control_sender = None;
        self.video_sender = None;
        self.haptics_sender = None;
        self.video_mirror_sender = None;
    }

    /// Whether a session is installed (the video slot decides, as every slot
    /// is filled and cleared together).
    pub fn has_session(&self) -> (r: bool)
        ensures
            r == self.video_sender.is_some(),
    {
        self.video_sender.is_some()
    }

    /// Hands a decoder-control message to the control channel.
    /// Relies on tokio's `UnboundedSender::send`: it never waits, and it
    /// succeeds exactly when the receive half is still open, which is not
    /// visible here. The message is moved into the channel either way.
    #[verifier::external_body]
    pub fn send_control(&mut self, packet: ServerControlPacket) -> (delivered: bool)
        requires
            old(self).control_sender.is_some(),
        ensures
            final(self).same_senders(old(self)),
            final(self).control_log() == old(self).control_log().push(control_payload(packet)),
            final(self).video_log() == old(self).video_log(),
            final(self).haptics_log() == old(self).haptics_log(),
            final(self).mirror_log() == old(self).mirror_log(),
            final(self).events() == old(self).events().push(Channel::Control),
    {
        match &self.control_sender {
            Some(sender) => sender.send(packet).is_ok(),
            None => false,
        }
    }

    /// Hands a video packet to the video channel.
    /// Relies on tokio's `UnboundedSender::send`, as `send_control` does.
    #[verifier::external_body]
    pub fn send_video(&mut self, packet: VideoPacket) -> (delivered: bool)
        requires
            old(self).video_sender.is_some(),
        ensures
            final(self).same_senders(old(self)),
            final(self).control_log() == old(self).control_log(),
            final(self).video_log() == old(self).video_log().push(
                (packet.header, packet.payload@),
            ),
            final(self).haptics_log() == old(self).haptics_log(),
            final(self).mirror_log() == old(self).mirror_log(),
            final(self).events() == old(self).events().push(Channel::Video),
    {
        match &self.video_sender {
            Some(sender) => sender.send(packet).is_ok(),
            None => false,
        }
    }

    /// Hands a haptic command to the haptics channel.
    /// Relies on tokio's `UnboundedSender::send`, as `send_control` does.
    #[verifier::external_body]
    pub fn send_haptics(&mut self, haptics: Haptics) -> (delivered: bool)
        requires
            old(self).haptics_sender.is_some(),
        ensures
            final(self).same_senders(old(self)),
            final(self).control_log() == old(self).control_log(),
            final(self).video_log() == old(self).video_log(),
            final(self).haptics_log() == old(self).haptics_log().push(haptics),
            final(self).mirror_log() == old(self).mirror_log(),
            final(self).events() == old(self).events().push(Channel::Haptics),
    {
        match &self.haptics_sender {
            Some(sender) => sender.send(haptics).is_ok(),
            None => false,
        }
    }

    /// Publishes a byte copy on the mirror broadcast.
    /// Relies on tokio's `broadcast::Sender::send`: it never waits, and it
    /// fails when no receiver is subscribed, which is not an error here.
    #[verifier::external_body]
    pub fn publish_mirror(&mut self, copy: Vec<u8>) -> (delivered: bool)
        requires
            old(self).video_mirror_sender.is_some(),
        ensures
            final(self).same_senders(old(self)),
            final(self).control_log() == old(self).control_log(),
            final(self).video_log() == old(self).video_log(),
            final(self).haptics_log() == old(self).haptics_log(),
            final(self).mirror_log() == old(self).mirror_log().push(copy@),
            final(self).events() == old(self).events().push(Channel::Mirror),
    {
        match &self.video_mirror_sender {
            Some(sender) => sender.send(copy).is_ok(),
            None => false,
        }
    }
}

} // verus!
