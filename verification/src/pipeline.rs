//! The lifecycle of the media pipeline: at most one instance, started for
//! the viewer that finds none running and stopped when the last viewer has
//! gone. The engine itself is outside; this module decides and describes.

use crate::registry::PeerAddr;
use vstd::prelude::*;
use vstd::string::StringExecFns;

verus! {

/// The UDP port that video is sent to on the viewer's host.
pub const VIDEO_PORT: u16 = 5601;

/// The UDP port that audio is sent to on the viewer's host.
pub const AUDIO_PORT: u16 = 5602;

/// The description up to the video sink's host: screen capture, H.264
/// encoding tuned for latency, RTP payloading.
pub const DESCRIPTION_HEAD: &'static str = "rtpbin name=rtpbin \
    d3d11screencapturesrc show-cursor=true ! videoconvert ! queue ! \
    x264enc name=enc tune=zerolatency sliced-threads=true speed-preset=ultrafast \
    bframes=0 bitrate=20000 key-int-max=120 ! \
    video/x-h264,profile=main ! \
    rtph264pay config-interval=-1 aggregate-mode=zero-latency ! \
    application/x-rtp,encoding-name=H264,clock-rate=90000,media=video,payload=96 ! \
    rtpbin.send_rtp_sink_0 \
    rtpbin. ! \
    udpsink host=";

/// The description between the two hosts: the video sink's port, then
/// audio capture, Opus encoding and RTP payloading up to the audio sink's
/// host.
pub const DESCRIPTION_MIDDLE: &'static str = " port=5601 sync=false \
    wasapi2src loopback=true low-latency=true ! \
    queue ! \
    audioconvert ! \
    audioresample ! \
    queue ! \
    opusenc perfect-timestamp=false ! \
    rtpopuspay ! \
    application/x-rtp,encoding-name=OPUS,media=audio,payload=127 !\n        \
    rtpbin.send_rtp_sink_1 \
    rtpbin. ! \
    udpsink host=";

/// The description after the audio sink's host: its port.
pub const DESCRIPTION_TAIL: &'static str = " port=5602 sync=false";

/// The pipeline that captures screen and audio and sends both to `host`:
/// video to `VIDEO_PORT`, audio to `AUDIO_PORT`.
pub open spec fn description_for(host: Seq<char>) -> Seq<char> {
    DESCRIPTION_HEAD@ + host + DESCRIPTION_MIDDLE@ + host + DESCRIPTION_TAIL@
}

/// The engine's description of the pipeline that streams to `host`.
pub fn pipeline_description(host: &str) -> (description: String)
    ensures
        description@ == description_for(host@),
{
    let mut description = String::from_str(DESCRIPTION_HEAD);
    description.append(host);
    description.append(DESCRIPTION_MIDDLE);
    description.append(host);
    description.append(DESCRIPTION_TAIL);
    description
}

/// Why the engine did not come to play.
#[derive(Clone, Copy, Debug, PartialEq, Eq, Structural)]
pub enum PipelineFailure {
    /// The engine rejected the description; no instance was made.
    PipelineParseFailure,
    /// The engine refused the change of state.
    PipelineStateFailure,
}

/// What the controller asks of the engine.
pub enum PipelineAction {
    /// Nothing: the request found the pipeline as it asks it to be.
    Nothing,
    /// Build the pipeline of this description and set it playing.
    Start { description: String },
    /// Set the pipeline to its null state and release it.
    Stop,
}

/// A `PipelineAction` with its description as text.
pub enum PipelineActionView {
    Nothing,
    Start { description: Seq<char> },
    Stop,
}

impl View for PipelineAction {
    type V = PipelineActionView;

    open spec fn view(&self) -> PipelineActionView {
        match self {
            PipelineAction::Nothing => PipelineActionView::Nothing,
            PipelineAction::Start { description } => PipelineActionView::Start {
                description: description@,
            },
            PipelineAction::Stop => PipelineActionView::Stop,
        }
    }
}

/// Whether a pipeline instance exists, and for whom it plays.
///
/// There is one controller for the one pipeline of a process; it is held
/// under the same lock as the engine's handle, and the engine is called
/// while that lock is held.
pub struct PipelineController {
    /// The viewer that the running instance streams to; `None` while there
    /// is no instance.
    pub destination: Option<PeerAddr>,
}

impl PipelineController {
    pub open spec fn is_present(&self) -> bool {
        self.destination is Some
    }

    /// A controller with no instance.
    pub fn new() -> (controller: PipelineController)
        ensures
            controller.destination is None,
    {
        PipelineController { destination: None }
    }

    pub fn is_started(&self) -> (started: bool)
        ensures
            started == self.is_present(),
    {
        self.destination.is_some()
    }

    /// A viewer at `addr`, whose host is written `host`, has connected.
    /// With no instance, one is to be started for that viewer; with one, the
    /// call changes nothing, whoever it plays for.
    pub fn on_first_peer(&mut self, addr: PeerAddr, host: &str) -> (action: PipelineAction)
        ensures
            old(self).is_present() ==> action@ == PipelineActionView::Nothing
                && final(self).destination == old(self).destination,
            !old(self).is_present() ==> action@ == (PipelineActionView::Start {
                description: description_for(host@),
            }) && final(self).destination == Some(addr),
    {
        if self.destination.is_some() {
            PipelineAction::Nothing
        } else {
            self.destination = Some(addr);
            PipelineAction::Start { description: pipeline_description(host) }
        }
    }

    /// The last viewer has gone. An instance is to be stopped and is
    /// forgotten; without one the call changes nothing.
    pub fn on_last_peer_gone(&mut self) -> (action: PipelineAction)
        ensures
            final(self).destination is None,
            old(self).is_present() ==> action@ == PipelineActionView::Stop,
            !old(self).is_present() ==> action@ == PipelineActionView::Nothing,
    {
        if self.destination.is_some() {
            self.destination = None;
            PipelineAction::Stop
        } else {
            PipelineAction::Nothing
        }
    }

    /// The engine reported that a start did not succeed. The instance is
    /// forgotten, so that the next viewer's connection tries again.
    pub fn on_start_failed(&mut self, failure: PipelineFailure)
        ensures
            final(self).destination is None,
    {
        self.destination = None;
    }
}

} // verus!
