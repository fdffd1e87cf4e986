//! The topics of the overlay, the call states and the envelopes that
//! travel on each topic.

use vstd::prelude::*;

verus! {

pub const VIDEO_TOPIC: &'static str = "video";

pub const AUDIO_TOPIC: &'static str = "audio";

pub const CHAT_TOPIC: &'static str = "chat";

pub const CONTROL_TOPIC: &'static str = "control";

pub const FILE_TOPIC: &'static str = "file";

/// The small set of control messages; ending the call is the only one.
#[derive(PartialEq, Eq, Structural, Clone, Copy, Debug)]
pub enum ControlMessage {
    EndCall,
}

/// Where the call stands.
#[derive(PartialEq, Eq, Structural, Clone, Copy, Debug)]
pub enum AppStatus {
    WaitingForPeers,
    Joining,
    InCall,
}

/// The named topics of the overlay; every envelope arrives on one of them.
#[derive(PartialEq, Eq, Structural, Clone, Copy, Debug)]
pub enum Topic {
    Video,
    Audio,
    Chat,
    Control,
    File,
}

impl Topic {
    pub open spec fn name_spec(self) -> Seq<char> {
        match self {
            Topic::Video => VIDEO_TOPIC@,
            Topic::Audio => AUDIO_TOPIC@,
            Topic::Chat => CHAT_TOPIC@,
            Topic::Control => CONTROL_TOPIC@,
            Topic::File => FILE_TOPIC@,
        }
    }

    /// The topic's name on the wire.
    pub fn name(self) -> (r: &'static str)
        ensures
            r@ == self.name_spec(),
    {
        match self {
            Topic::Video => VIDEO_TOPIC,
            Topic::Audio => AUDIO_TOPIC,
            Topic::Chat => CHAT_TOPIC,
            Topic::Control => CONTROL_TOPIC,
            Topic::File => FILE_TOPIC,
        }
    }

    /// The topic with the given wire name; the dispatch goes by the name
    /// alone.
    pub fn from_name(name: &str) -> (r: Option<Topic>)
        ensures
            r matches Some(t) ==> name@ == t.name_spec(),
            r is None ==> forall|t: Topic| name@ != #[trigger] t.name_spec(),
    {
        let n = String::from_str(name);
        if n == String::from_str(VIDEO_TOPIC) {
            Some(Topic::Video)
        } else if n == String::from_str(AUDIO_TOPIC) {
            Some(Topic::Audio)
        } else if n == String::from_str(CHAT_TOPIC) {
            Some(Topic::Chat)
        } else if n == String::from_str(CONTROL_TOPIC) {
            Some(Topic::Control)
        } else if n == String::from_str(FILE_TOPIC) {
            Some(Topic::File)
        } else {
            None
        }
    }
}

/// One video envelope: an ASCII frame and the sender's mute flags.
#[derive(Debug)]
pub struct FrameData {
    pub peer_id: String,
    pub frame: String,
    pub is_audio_muted: bool,
    pub is_video_muted: bool,
}

/// One chat envelope.
#[derive(Debug)]
pub struct ChatMessage {
    pub peer_id: String,
    pub message: String,
}

/// One file envelope: the whole file in a single message.
#[derive(Debug)]
pub struct FileMessage {
    pub peer_id: String,
    pub file_name: String,
    pub content: Vec<u8>,
}

} // verus!
