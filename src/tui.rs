//! The view model that the terminal paints: remote views, listen
//! addresses, chat lines, downloads and the chat input.

use vstd::prelude::*;
use crate::messages::FrameData;
use crate::text::concat_str;

verus! {

/// The state of a download, as plain values.
pub enum DownloadStateView {
    Downloading,
    Completed(Seq<char>),
    Failed,
}

/// What became of a file that a peer sent.
#[derive(Debug)]
pub enum FileDownloadState {
    Downloading,
    Completed(String),
    Failed,
}

/// One received file, in the order of arrival.
#[derive(Debug)]
pub struct FileDownload {
    pub file_name: String,
    pub peer_id: String,
    pub state: FileDownloadState,
}

/// What is shown of one remote peer: the last frame it sent and its
/// mute flags.
#[derive(Debug)]
pub struct RemoteView {
    pub peer_id: String,
    pub last_frame: String,
    pub audio_muted: bool,
    pub video_muted: bool,
}

impl View for FileDownloadState {
    type V = DownloadStateView;

    open spec fn view(&self) -> DownloadStateView {
        match self {
            FileDownloadState::Downloading => DownloadStateView::Downloading,
            FileDownloadState::Completed(p) => DownloadStateView::Completed(p@),
            FileDownloadState::Failed => DownloadStateView::Failed,
        }
    }
}

/// The file name, the sending peer and the state of a download.
pub type DownloadModel = (Seq<char>, Seq<char>, DownloadStateView);

impl View for FileDownload {
    type V = DownloadModel;

    open spec fn view(&self) -> DownloadModel {
        (self.file_name@, self.peer_id@, self.state@)
    }
}

/// The last frame and the audio and video mute flags of a peer.
pub type RemoteModel = (Seq<char>, bool, bool);

impl RemoteView {
    pub open spec fn model(&self) -> RemoteModel {
        (self.last_frame@, self.audio_muted, self.video_muted)
    }
}

/// No peer id stands in two entries.
pub open spec fn unique_peers(views: Seq<RemoteView>) -> bool {
    forall|i: int, j: int|
        0 <= i < views.len() && 0 <= j < views.len() && i != j ==> views[i].peer_id@
            != views[j].peer_id@
}

/// The remote views keyed by peer id.
pub open spec fn remote_map(views: Seq<RemoteView>) -> Map<Seq<char>, RemoteModel> {
    Map::new(
        |k: Seq<char>| exists|i: int| 0 <= i < views.len() && views[i].peer_id@ == k,
        |k: Seq<char>|
            views[choose|i: int| 0 <= i < views.len() && views[i].peer_id@ == k].model(),
    )
}

/// The view model of the terminal.
pub struct Tui {
    pub remote_frames: Vec<RemoteView>,
    pub listen_addresses: Vec<String>,
    pub messages: Vec<String>,
    pub downloads: Vec<FileDownload>,
    pub input: String,
    pub input_mode: bool,
}

proof fn lemma_remote_map_update(views: Seq<RemoteView>, i: int, e: RemoteView)
    requires
        unique_peers(views),
        0 <= i < views.len(),
        views[i].peer_id@ == e.peer_id@,
    ensures
        unique_peers(views.update(i, e)),
        remote_map(views.update(i, e)) =~= remote_map(views).insert(e.peer_id@, e.model()),
{
    let nv = views.update(i, e);
    assert forall|k: Seq<char>| #[trigger] remote_map(nv).contains_key(k) == remote_map(
        views,
    ).insert(e.peer_id@, e.model()).contains_key(k) by {
        if exists|j: int| 0 <= j < views.len() && views[j].peer_id@ == k {
            let j = choose|j: int| 0 <= j < views.len() && views[j].peer_id@ == k;
            assert(nv[j].peer_id@ == k);
        }
        if exists|j: int| 0 <= j < nv.len() && nv[j].peer_id@ == k {
            let j = choose|j: int| 0 <= j < nv.len() && nv[j].peer_id@ == k;
            assert(views[j].peer_id@ == k);
        }
    }
    assert forall|k: Seq<char>| #[trigger] remote_map(nv).contains_key(k) implies remote_map(
        nv,
    )[k] == remote_map(views).insert(e.peer_id@, e.model())[k] by {
        let j = choose|j: int| 0 <= j < nv.len() && nv[j].peer_id@ == k;
        if k != e.peer_id@ {
            let j2 = choose|j: int| 0 <= j < views.len() && views[j].peer_id@ == k;
            assert(views[j].peer_id@ == k);
            assert(j == j2);
        } else {
            assert(nv[i].peer_id@ == k);
            assert(j == i);
        }
    }
}

proof fn lemma_remote_map_push(views: Seq<RemoteView>, e: RemoteView)
    requires
        unique_peers(views),
        forall|j: int| 0 <= j < views.len() ==> views[j].peer_id@ != e.peer_id@,
    ensures
        unique_peers(views.push(e)),
        remote_map(views.push(e)) =~= remote_map(views).insert(e.peer_id@, e.model()),
{
    let nv = views.push(e);
    let n = views.len() as int;
    assert forall|k: Seq<char>| #[trigger] remote_map(nv).contains_key(k) == remote_map(
        views,
    ).insert(e.peer_id@, e.model()).contains_key(k) by {
        if exists|j: int| 0 <= j < views.len() && views[j].peer_id@ == k {
            let j = choose|j: int| 0 <= j < views.len() && views[j].peer_id@ == k;
            assert(nv[j].peer_id@ == k);
        }
        if k == e.peer_id@ {
            assert(nv[n].peer_id@ == k);
        }
        if exists|j: int| 0 <= j < nv.len() && nv[j].peer_id@ == k {
            let j = choose|j: int| 0 <= j < nv.len() && nv[j].peer_id@ == k;
            if j < n {
                assert(views[j].peer_id@ == k);
            }
        }
    }
    assert forall|k: Seq<char>| #[trigger] remote_map(nv).contains_key(k) implies remote_map(
        nv,
    )[k] == remote_map(views).insert(e.peer_id@, e.model())[k] by {
        let j = choose|j: int| 0 <= j < nv.len() && nv[j].peer_id@ == k;
        if k != e.peer_id@ {
            let j2 = choose|j: int| 0 <= j < views.len() && views[j].peer_id@ == k;
            assert(views[j].peer_id@ == k);
            assert(j == j2);
        } else {
            assert(nv[n].peer_id@ == k);
            assert(j == n);
        }
    }
}

pub open spec fn muted_suffix(muted: bool, note: Seq<char>) -> Seq<char> {
    if muted {
        note
    } else {
        Seq::empty()
    }
}

pub open spec fn on_off(muted: bool) -> Seq<char> {
    if muted {
        "Off"@
    } else {
        "On"@
    }
}

/// The title of the local view: the key help, with the mute notes.
pub open spec fn self_title_spec(audio_muted: bool, video_muted: bool) -> Seq<char> {
    "My View (q: quit, i: chat, m: mute audio"@ + muted_suffix(audio_muted, " (Muted)"@)
        + ", v: mute video"@ + muted_suffix(video_muted, " (Video Off)"@) + ", f: send file)"@
}

/// The title of a remote view: the peer and the state of its media.
pub open spec fn peer_title_spec(peer_id: Seq<char>, audio_muted: bool, video_muted: bool) -> Seq<char> {
    "Peer: "@ + peer_id + " (Audio: "@ + on_off(audio_muted) + muted_suffix(audio_muted, " (Muted)"@)
        + ", Video: "@ + on_off(video_muted) + muted_suffix(video_muted, " (Video Off)"@) + ")"@
}

pub open spec fn download_state_text(s: DownloadStateView) -> Seq<char> {
    match s {
        DownloadStateView::Downloading => "Downloading..."@,
        DownloadStateView::Completed(p) => "Done -> "@ + p,
        DownloadStateView::Failed => "Failed!"@,
    }
}

/// The line shown for a download.
pub open spec fn download_line_spec(d: DownloadModel) -> Seq<char> {
    d.0 + " from "@ + d.1 + ": "@ + download_state_text(d.2)
}

/// The title of the local view.
pub fn self_title(audio_muted: bool, video_muted: bool) -> (r: String)
    ensures
        r@ == self_title_spec(audio_muted, video_muted),
{
    let mut r = String::from_str("My View (q: quit, i: chat, m: mute audio");
    if audio_muted {
        r.append(" (Muted)");
    }
    r.append(", v: mute video");
    if video_muted {
        r.append(" (Video Off)");
    }
    r.append(", f: send file)");
    assert(r@ =~= self_title_spec(audio_muted, video_muted));
    r
}

impl RemoteView {
    /// The title of this view.
    pub fn title(&self) -> (r: String)
        ensures
            r@ == peer_title_spec(self.peer_id@, self.audio_muted, self.video_muted),
    {
        let mut r = concat_str("Peer: ", self.peer_id.as_str());
        r.append(" (Audio: ");
        if self.audio_muted {
            r.append("Off");
            r.append(" (Muted)");
        } else {
            r.append("On");
        }
        r.append(", Video: ");
        if self.video_muted {
            r.append("Off");
            r.append(" (Video Off)");
        } else {
            r.append("On");
        }
        r.append(")");
        assert(r@ =~= peer_title_spec(self.peer_id@, self.audio_muted, self.video_muted));
        r
    }
}

impl FileDownload {
    /// The line shown for this download.
    pub fn line(&self) -> (r: String)
        ensures
            r@ == download_line_spec(self@),
    {
        let mut r = concat_str(self.file_name.as_str(), " from ");
        r.append(self.peer_id.as_str());
        r.append(": ");
        match &self.state {
            FileDownloadState::Downloading => r.append("Downloading..."),
            FileDownloadState::Completed(p) => {
                r.append("Done -> ");
                r.append(p.as_str());
            },
            FileDownloadState::Failed => r.append("Failed!"),
        }
        assert(r@ =~= download_line_spec(self@));
        r
    }
}

impl Tui {
    /// The remote views keep one entry per peer.
    pub open spec fn wf(&self) -> bool {
        unique_peers(self.remote_frames@)
    }

    pub open spec fn remote_views(&self) -> Map<Seq<char>, RemoteModel> {
        remote_map(self.remote_frames@)
    }

    /// An empty view model, in normal (not chat input) mode.
    pub fn new() -> (r: Tui)
        ensures
            r.wf(),
            r.remote_frames@.len() == 0,
            r.listen_addresses@.len() == 0,
            r.messages@.len() == 0,
            r.downloads@.len() == 0,
            r.input@.len() == 0,
            !r.input_mode,
    {
        Tui {
            remote_frames: Vec::new(),
            listen_addresses: Vec::new(),
            messages: Vec::new(),
            downloads: Vec::new(),
            input: String::new(),
            input_mode: false,
        }
    }

    pub fn add_listen_address(&mut self, addr: String)
        ensures
            final(self).listen_addresses@ == old(self).listen_addresses@.push(addr),
            final(self).remote_frames == old(self).remote_frames,
            final(self).messages == old(self).messages,
            final(self).downloads == old(self).downloads,
            final(self).input == old(self).input,
            final(self).input_mode == old(self).input_mode,
    {
        self.listen_addresses.push(addr);
    }

    /// Records the newest frame of a peer: its entry is replaced, or added
    /// where the peer had none.
    pub fn update_frame(&mut self, frame_data: FrameData)
        requires
            old(self).wf(),
        ensures
            final(self).wf(),
            final(self).remote_views() == old(self).remote_views().insert(
                frame_data.peer_id@,
                (frame_data.frame@, frame_data.is_audio_muted, frame_data.is_video_muted),
            ),
            final(self).listen_addresses == old(self).listen_addresses,
            final(self).messages == old(self).messages,
            final(self).downloads == old(self).downloads,
            final(self).input == old(self).input,
            final(self).input_mode == old(self).input_mode,
    {
        let FrameData { peer_id, frame, is_audio_muted, is_video_muted } = frame_data;
        let entry = RemoteView {
            peer_id,
            last_frame: frame,
            audio_muted: is_audio_muted,
            video_muted: is_video_muted,
        };
        let mut i: usize = 0;
        while i < self.remote_frames.len()
            invariant
                0 <= i <= self.remote_frames@.len(),
                *self == *old(self),
                self.wf(),
                entry.peer_id@ == frame_data.peer_id@,
                entry.model() == (frame_data.frame@, frame_data.is_audio_muted, frame_data.is_video_muted),
                forall|j: int| 0 <= j < i ==> self.remote_frames@[j].peer_id@ != entry.peer_id@,
            decreases self.remote_frames@.len() - i,
        {
            if self.remote_frames[i].peer_id == entry.peer_id {
                proof {
                    lemma_remote_map_update(self.remote_frames@, i as int, entry);
                }
                self.remote_frames.set(i, entry);
                return;
            }
            i = i + 1;
        }
        proof {
            lemma_remote_map_push(self.remote_frames@, entry);
        }
        self.remote_frames.push(entry);
    }
}

} // verus!
