//! The channel endpoints of the session pipeline, from tokio, and the record
//! of what was handed to them.
use tokio::sync::broadcast;
use crate::packets::{Haptics, VideoFrameHeaderPacket};
use tokio::sync::mpsc::UnboundedSender;
use vstd::prelude::*;

verus! {

#[verifier::external_type_specification]
#[verifier::external_body]
#[verifier::reject_recursive_types(T)]
pub struct ExUnboundedSender<T>(UnboundedSender<T>);

#[verifier::external_type_specification]
#[verifier::external_body]
#[verifier::reject_recursive_types(T)]
pub struct ExBroadcastSender<T>(broadcast::Sender<T>);

/// A stream of the session, as it appears in the order of hand-offs.
#[derive(Clone, Copy, Debug, PartialEq, Eq)]
pub enum Channel {
    Control,
    Video,
    Haptics,
    Mirror,
}

/// The messages handed to the session's channels, in order, whether or not a
/// receiver took them. Its fields are private: only the registry's send
/// methods, which make the outside call, extend it.
pub struct HandOffLog {
    control: Ghost<Seq<Seq<u8>>>,
    video: Ghost<Seq<(VideoFrameHeaderPacket, Seq<u8>)>>,
    haptics: Ghost<Seq<Haptics>>,
    mirror: Ghost<Seq<Seq<u8>>>,
    events: Ghost<Seq<Channel>>,
}

impl HandOffLog {
    /// Decoder configurations handed to the control channel.
    pub closed spec fn control(&self) -> Seq<Seq<u8>> {
        self.control@
    }

    /// Video packets handed to the video channel, as header and payload.
    pub closed spec fn video(&self) -> Seq<(VideoFrameHeaderPacket, Seq<u8>)> {
        self.video@
    }

    /// Haptic commands handed to the haptics channel.
    pub closed spec fn haptics(&self) -> Seq<Haptics> {
        self.haptics@
    }

    /// Byte copies handed to the mirror broadcast.
    pub closed spec fn mirror(&self) -> Seq<Seq<u8>> {
        self.mirror@
    }

    /// The channel of every hand-off, across all channels, in order.
    pub closed spec fn events(&self) -> Seq<Channel> {
        self.events@
    }

    /// A log of no hand-off.
    pub fn new() -> (r: HandOffLog)
        ensures
            r.control().len() == 0,
            r.video().len() == 0,
            r.haptics().len() == 0,
            r.mirror().len() == 0,
            r.events().len() == 0,
    {
        HandOffLog {
            control: Ghost(Seq::empty()),
            video: Ghost(Seq::empty()),
            haptics: Ghost(Seq::empty()),
            mirror: Ghost(Seq::empty()),
            events: Ghost(Seq::empty()),
        }
    }
}

} // verus!
