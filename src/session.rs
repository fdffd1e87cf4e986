//! The session: the call-state machine at the centre of the event loop.
//! Each event (a tick, a key, a transport event, a download report) is
//! handed to one method, which updates the state and returns the actions
//! that the loop then performs: publishing, audio hand-over, file work,
//! painting and leaving.

use vstd::prelude::*;
use crate::messages::{AppStatus, ChatMessage, ControlMessage, FileMessage, FrameData, Topic};
use crate::text::{
    concat_str, is_safe_file_name, last_chars, pop_char, push_char, safe_file_name, short_peer_id,
};
use crate::tui::{DownloadModel, DownloadStateView, FileDownload, FileDownloadState, RemoteModel, Tui};
use crate::wire::{chat_json, control_json, file_json, frame_json};

verus! {

/// A key press, as the loop sees it.
#[derive(PartialEq, Eq, Structural, Clone, Copy, Debug)]
pub enum Key {
    Char(char),
    Backspace,
    Enter,
    Esc,
    Other,
}

/// A message from the overlay, decoded by the type that its topic names.
#[derive(Debug)]
pub enum Incoming {
    Video(FrameData),
    Audio { peer_id: String },
    Chat(ChatMessage),
    File(FileMessage),
    Control(ControlMessage),
}

/// An event of the transport.
#[derive(Debug)]
pub enum NetEvent {
    ConnectionEstablished,
    ConnectionClosed,
    IncomingConnectionError,
    NewListenAddr(String),
    Message(Incoming),
    Other,
}

/// A static screen: the ones painted outside a call.
#[derive(PartialEq, Eq, Structural, Clone, Copy, Debug)]
pub enum Screen {
    Waiting,
    Joining,
}

/// What the loop is asked to do.
#[derive(Debug)]
pub enum Action {
    /// Publish the payload on the topic; a failure is ignored.
    Publish { topic: Topic, payload: String },
    /// Take at most one captured audio chunk, without waiting, and
    /// publish it on the audio topic.
    SendCapturedAudio,
    /// Hand the samples of the audio message just received to playback.
    PlayAudio,
    /// Let the user pick a file to send.
    PickFile,
    /// Save a received file, whose name is safe to use, and report the
    /// outcome for the download at `index`.
    SaveFile { index: usize, file_name: String, content: Vec<u8> },
    /// Paint the call screen with the local frame.
    PaintInCall { frame: String },
    /// Leave the loop.
    Quit,
}

/// An action as plain values.
pub enum ActionView {
    Publish { topic: Topic, payload: Seq<char> },
    SendCapturedAudio,
    PlayAudio,
    PickFile,
    SaveFile { index: usize, file_name: Seq<char>, content: Seq<u8> },
    PaintInCall { frame: Seq<char> },
    Quit,
}

impl View for Action {
    type V = ActionView;

    open spec fn view(&self) -> ActionView {
        match self {
            Action::Publish { topic, payload } => ActionView::Publish {
                topic: *topic,
                payload: payload@,
            },
            Action::SendCapturedAudio => ActionView::SendCapturedAudio,
            Action::PlayAudio => ActionView::PlayAudio,
            Action::PickFile => ActionView::PickFile,
            Action::SaveFile { index, file_name, content } => ActionView::SaveFile {
                index: *index,
                file_name: file_name@,
                content: content@,
            },
            Action::PaintInCall { frame } => ActionView::PaintInCall { frame: frame@ },
            Action::Quit => ActionView::Quit,
        }
    }
}

pub open spec fn actions_view(r: Seq<Action>) -> Seq<ActionView> {
    r.map_values(|a: Action| a@)
}

/// The whole state of a session as plain values.
pub struct SessionView {
    pub status: AppStatus,
    pub local_peer_id: Seq<char>,
    pub remote_views: Map<Seq<char>, RemoteModel>,
    pub listen_addresses: Seq<Seq<char>>,
    pub messages: Seq<Seq<char>>,
    pub downloads: Seq<DownloadModel>,
    pub input: Seq<char>,
    pub input_mode: bool,
    pub audio_muted: bool,
    pub video_muted: bool,
    pub dirty: bool,
    pub no_camera_frame: Seq<char>,
}

/// The state that the event loop owns.
pub struct Session {
    pub status: AppStatus,
    pub local_peer_id: String,
    pub tui: Tui,
    pub audio_muted: bool,
    pub video_muted: bool,
    /// Set whenever the view model changed since the last paint.
    pub dirty: bool,
    /// The synthetic frame sent while the camera is off or failing.
    pub no_camera_frame: String,
}

impl View for Session {
    type V = SessionView;

    open spec fn view(&self) -> SessionView {
        SessionView {
            status: self.status,
            local_peer_id: self.local_peer_id@,
            remote_views: self.tui.remote_views(),
            listen_addresses: self.tui.listen_addresses@.map_values(|a: String| a@),
            messages: self.tui.messages@.map_values(|m: String| m@),
            downloads: self.tui.downloads@.map_values(|d: FileDownload| d@),
            input: self.tui.input@,
            input_mode: self.tui.input_mode,
            audio_muted: self.audio_muted,
            video_muted: self.video_muted,
            dirty: self.dirty,
            no_camera_frame: self.no_camera_frame@,
        }
    }
}

pub open spec fn opt_view(o: Option<String>) -> Option<Seq<char>> {
    match o {
        Some(s) => Some(s@),
        None => None,
    }
}

pub open spec fn publish(topic: Topic, payload: Seq<char>) -> ActionView {
    ActionView::Publish { topic, payload }
}

pub open spec fn end_call_actions() -> Seq<ActionView> {
    seq![publish(Topic::Control, control_json(ControlMessage::EndCall)), ActionView::Quit]
}

/// A key press: editing the chat line in input mode, commands otherwise.
pub open spec fn key_step(s: SessionView, key: Key) -> (SessionView, Seq<ActionView>) {
    if s.input_mode {
        match key {
            Key::Char(c) => (SessionView { input: s.input.push(c), dirty: true, ..s }, seq![]),
            Key::Backspace => (
                SessionView {
                    input: if s.input.len() == 0 {
                        s.input
                    } else {
                        s.input.drop_last()
                    },
                    dirty: true,
                    ..s
                },
                seq![],
            ),
            Key::Enter => (
                SessionView {
                    input: seq![],
                    input_mode: false,
                    messages: s.messages.push("You: "@ + s.input),
                    dirty: true,
                    ..s
                },
                seq![publish(Topic::Chat, chat_json(s.local_peer_id, s.input))],
            ),
            Key::Esc => (SessionView { input: seq![], input_mode: false, dirty: true, ..s }, seq![]),
            Key::Other => (s, seq![]),
        }
    } else {
        match key {
            Key::Char('q') => (
                s,
                if s.status == AppStatus::WaitingForPeers {
                    seq![ActionView::Quit]
                } else {
                    end_call_actions()
                },
            ),
            Key::Char('i') => (SessionView { input_mode: true, dirty: true, ..s }, seq![]),
            Key::Char('m') => (
                SessionView { audio_muted: !s.audio_muted, dirty: true, ..s },
                seq![],
            ),
            Key::Char('v') => (
                SessionView { video_muted: !s.video_muted, dirty: true, ..s },
                seq![],
            ),
            Key::Char('f') => (s, seq![ActionView::PickFile]),
            _ => (s, seq![]),
        }
    }
}

/// A decoded message: anything that the local peer itself sent is
/// dropped.
pub open spec fn message_step(s: SessionView, m: Incoming) -> (SessionView, Seq<ActionView>) {
    match m {
        Incoming::Video(fd) => if fd.peer_id@ == s.local_peer_id {
            (s, seq![])
        } else {
            (
                SessionView {
                    remote_views: s.remote_views.insert(
                        fd.peer_id@,
                        (fd.frame@, fd.is_audio_muted, fd.is_video_muted),
                    ),
                    dirty: true,
                    ..s
                },
                seq![],
            )
        },
        Incoming::Audio { peer_id } => if peer_id@ == s.local_peer_id {
            (s, seq![])
        } else {
            (s, seq![ActionView::PlayAudio])
        },
        Incoming::Chat(c) => if c.peer_id@ == s.local_peer_id {
            (s, seq![])
        } else {
            (
                SessionView {
                    messages: s.messages.push(last_chars(c.peer_id@, 6) + ": "@ + c.message@),
                    dirty: true,
                    ..s
                },
                seq![],
            )
        },
        Incoming::File(f) => if f.peer_id@ == s.local_peer_id {
            (s, seq![])
        } else if !safe_file_name(f.file_name@) {
            (
                SessionView {
                    downloads: s.downloads.push(
                        (f.file_name@, f.peer_id@, DownloadStateView::Failed),
                    ),
                    dirty: true,
                    ..s
                },
                seq![],
            )
        } else {
            (
                SessionView {
                    downloads: s.downloads.push(
                        (f.file_name@, f.peer_id@, DownloadStateView::Downloading),
                    ),
                    dirty: true,
                    ..s
                },
                seq![
                    ActionView::SaveFile {
                        index: s.downloads.len() as usize,
                        file_name: f.file_name@,
                        content: f.content@,
                    },
                ],
            )
        },
        Incoming::Control(ControlMessage::EndCall) => (s, seq![ActionView::Quit]),
    }
}

/// A transport event.
pub open spec fn net_step(s: SessionView, ev: NetEvent) -> (SessionView, Seq<ActionView>) {
    match ev {
        NetEvent::ConnectionEstablished => (
            SessionView { status: AppStatus::InCall, dirty: true, ..s },
            seq![],
        ),
        NetEvent::ConnectionClosed => (s, end_call_actions()),
        NetEvent::NewListenAddr(a) => (
            SessionView {
                listen_addresses: s.listen_addresses.push(a@ + "/p2p/"@ + s.local_peer_id),
                dirty: true,
                ..s
            },
            seq![],
        ),
        NetEvent::Message(m) => message_step(s, m),
        _ => (s, seq![]),
    }
}

/// The frame sent on a tick: the synthetic one while video is muted or
/// when nothing was captured.
pub open spec fn tick_frame(s: SessionView, captured: Option<Seq<char>>) -> Seq<char> {
    if s.video_muted || captured is None {
        s.no_camera_frame
    } else {
        captured.unwrap()
    }
}

/// A media tick: only in a call, the frame is always published, audio
/// only while not muted, and the call screen is painted.
pub open spec fn tick_actions(s: SessionView, captured: Option<Seq<char>>) -> Seq<ActionView> {
    if s.status != AppStatus::InCall {
        seq![]
    } else {
        seq![
            publish(
                Topic::Video,
                frame_json(s.local_peer_id, tick_frame(s, captured), s.audio_muted, s.video_muted),
            ),
        ] + (if s.audio_muted {
            seq![]
        } else {
            seq![ActionView::SendCapturedAudio]
        }) + seq![ActionView::PaintInCall { frame: tick_frame(s, captured) }]
    }
}

/// The outcome of saving the download at `index`; an index out of range
/// is dropped.
pub open spec fn download_step(s: SessionView, index: int, state: DownloadStateView) -> SessionView {
    if 0 <= index < s.downloads.len() {
        SessionView {
            downloads: s.downloads.update(
                index,
                (s.downloads[index].0, s.downloads[index].1, state),
            ),
            dirty: true,
            ..s
        }
    } else {
        s
    }
}

/// The screen to paint before the loop waits again: a static screen
/// only when something changed and no call is running.
pub open spec fn paint_screen(s: SessionView) -> Option<Screen> {
    if !s.dirty {
        None
    } else {
        match s.status {
            AppStatus::WaitingForPeers => Some(Screen::Waiting),
            AppStatus::Joining => Some(Screen::Joining),
            AppStatus::InCall => None,
        }
    }
}


/// The peer id that a message carries; control messages carry none.
pub open spec fn sender(m: Incoming) -> Option<Seq<char>> {
    match m {
        Incoming::Video(fd) => Some(fd.peer_id@),
        Incoming::Audio { peer_id } => Some(peer_id@),
        Incoming::Chat(c) => Some(c.peer_id@),
        Incoming::File(f) => Some(f.peer_id@),
        Incoming::Control(_) => None,
    }
}

/// The state after the messages `ms`, handled in order.
pub open spec fn after_messages(s: SessionView, ms: Seq<Incoming>) -> SessionView
    decreases ms.len(),
{
    if ms.len() == 0 {
        s
    } else {
        message_step(after_messages(s, ms.drop_last()), ms.last()).0
    }
}

/// Self-echo suppression: a message that carries the local peer's own id
/// leaves the whole state as it was (remote views, chat, downloads) and
/// asks for nothing, so no audio reaches playback either.
pub proof fn lemma_self_echo_ignored(s: SessionView, m: Incoming)
    requires
        sender(m) == Some(s.local_peer_id),
    ensures
        net_step(s, NetEvent::Message(m)) == (s, Seq::<ActionView>::empty()),
{
}

/// Mute propagation: once video is toggled off in a call, the envelope
/// of every tick says so and carries the synthetic frame, whatever the
/// camera gave; ticks leave the mute flag as it is.
pub proof fn lemma_muted_video(s: SessionView, captured: Option<Seq<char>>)
    requires
        s.status == AppStatus::InCall,
        !s.input_mode,
        !s.video_muted,
    ensures
        ({
            let t = key_step(s, Key::Char('v')).0;
            &&& t.video_muted
            &&& tick_actions(t, captured)[0] == publish(
                Topic::Video,
                frame_json(s.local_peer_id, s.no_camera_frame, s.audio_muted, true),
            )
        }),
{
}

/// The state and the actions after the key presses `keys`, in order.
pub open spec fn after_keys(s: SessionView, keys: Seq<Key>) -> (SessionView, Seq<ActionView>)
    decreases keys.len(),
{
    if keys.len() == 0 {
        (s, seq![])
    } else {
        let (t, a) = after_keys(s, keys.drop_last());
        let (u, b) = key_step(t, keys.last());
        (u, a + b)
    }
}

pub open spec fn key_of(c: char) -> Key {
    Key::Char(c)
}

/// The key presses that type `text`.
pub open spec fn typed(text: Seq<char>) -> Seq<Key> {
    text.map_values(|c: char| key_of(c))
}

#[verifier::spinoff_prover]
proof fn lemma_typing(s: SessionView, text: Seq<char>, k: int)
    requires
        !s.input_mode,
        s.input.len() == 0,
        0 <= k <= text.len(),
    ensures
        after_keys(s, seq![Key::Char('i')] + typed(text.subrange(0, k))) == (
            SessionView { input: text.subrange(0, k), input_mode: true, dirty: true, ..s },
            Seq::<ActionView>::empty(),
        ),
    decreases k,
{
    let tk = typed(text.subrange(0, k));
    let keys = seq![Key::Char('i')] + tk;
    assert(text.subrange(0, k).len() == k);
    assert(tk.len() == text.subrange(0, k).len());
    if k == 0 {
        assert(keys.drop_last() =~= Seq::<Key>::empty());
        assert(after_keys(s, keys.drop_last()) == (s, Seq::<ActionView>::empty()));
        assert(text.subrange(0, 0) =~= s.input);
        assert(Seq::<ActionView>::empty() + Seq::<ActionView>::empty() =~= Seq::<ActionView>::empty());
    } else {
        lemma_typing(s, text, k - 1);
        let tp = typed(text.subrange(0, k - 1));
        assert(text.subrange(0, k - 1).len() == k - 1);
        assert(tp.len() == text.subrange(0, k - 1).len());
        assert forall|j: int| 0 <= j < k - 1 implies tp[j] == tk[j] by {
            assert(tp[j] == key_of(text.subrange(0, k - 1)[j]));
            assert(tk[j] == key_of(text.subrange(0, k)[j]));
        }
        assert(keys.drop_last() =~= seq![Key::Char('i')] + tp);
        assert(tk[k - 1] == key_of(text.subrange(0, k)[k - 1]));
        assert(keys.last() == Key::Char(text[k - 1]));
        assert(text.subrange(0, k - 1).push(text[k - 1]) =~= text.subrange(0, k));
        assert(Seq::<ActionView>::empty() + Seq::<ActionView>::empty() =~= Seq::<ActionView>::empty());
    }
}

/// Chat round trip: from normal mode with an empty input line, `i`, the
/// characters of any text and Enter publish exactly one chat envelope
/// with that text, add `You: <text>` to the chat, and leave input mode
/// with the line cleared.
pub proof fn lemma_chat_round_trip(s: SessionView, text: Seq<char>)
    requires
        !s.input_mode,
        s.input.len() == 0,
    ensures
        ({
            let (t, actions) = after_keys(
                s,
                seq![Key::Char('i')] + typed(text) + seq![Key::Enter],
            );
            &&& actions == seq![publish(Topic::Chat, chat_json(s.local_peer_id, text))]
            &&& t.messages == s.messages.push("You: "@ + text)
            &&& t.input.len() == 0
            &&& !t.input_mode
        }),
{
    lemma_typing(s, text, text.len() as int);
    let keys = seq![Key::Char('i')] + typed(text) + seq![Key::Enter];
    assert(text.subrange(0, text.len() as int) =~= text);
    assert(keys.drop_last() =~= seq![Key::Char('i')] + typed(text.subrange(0, text.len() as int)));
    let one = seq![publish(Topic::Chat, chat_json(s.local_peer_id, text))];
    assert(Seq::<ActionView>::empty() + one =~= one);
}

/// Ending a call: `q` in a call, outside input mode, leaves the state as
/// it is and asks for exactly one control publish of `EndCall`, then for
/// leaving the loop.
pub proof fn lemma_quit_ends_call(s: SessionView)
    requires
        s.status == AppStatus::InCall,
        !s.input_mode,
    ensures
        key_step(s, Key::Char('q')) == (
            s,
            seq![publish(Topic::Control, control_json(ControlMessage::EndCall)), ActionView::Quit],
        ),
{
}

/// The local peer never gets a remote view of its own: no event, key
/// press or download report adds one.
pub proof fn lemma_no_view_of_self(
    s: SessionView,
    ev: NetEvent,
    key: Key,
    index: int,
    state: DownloadStateView,
)
    requires
        !s.remote_views.contains_key(s.local_peer_id),
    ensures
        !net_step(s, ev).0.remote_views.contains_key(net_step(s, ev).0.local_peer_id),
        !key_step(s, key).0.remote_views.contains_key(key_step(s, key).0.local_peer_id),
        !download_step(s, index, state).remote_views.contains_key(s.local_peer_id),
{
}

proof fn lemma_messages_keep_identity(s: SessionView, ms: Seq<Incoming>)
    ensures
        after_messages(s, ms).local_peer_id == s.local_peer_id,
    decreases ms.len(),
{
    if ms.len() > 0 {
        lemma_messages_keep_identity(s, ms.drop_last());
    }
}

/// Last writer wins: after any run of video envelopes from one remote
/// peer, its view holds the frame and flags of the last one.
pub proof fn lemma_last_frame_wins(s: SessionView, ms: Seq<Incoming>, peer: Seq<char>)
    requires
        ms.len() > 0,
        peer != s.local_peer_id,
        forall|i: int| 0 <= i < ms.len() ==> (#[trigger] ms[i]) is Video && sender(ms[i]) == Some(peer),
    ensures
        ({
            let last = ms.last()->Video_0;
            after_messages(s, ms).remote_views[peer] == (
                last.frame@,
                last.is_audio_muted,
                last.is_video_muted,
            )
        }),
{
    lemma_messages_keep_identity(s, ms.drop_last());
    assert(ms[ms.len() - 1] is Video);
}

/// The redraw discipline outside a call: from a painted state, a key
/// press is followed by exactly one paint when it changed the state and
/// by none when it did not.
pub proof fn lemma_key_paints_once(s: SessionView, key: Key)
    requires
        !s.dirty,
        key_step(s, key).0.status != AppStatus::InCall,
    ensures
        paint_screen(key_step(s, key).0) is Some <==> key_step(s, key).0 != s,
        paint_screen(SessionView { dirty: false, ..key_step(s, key).0 }) is None,
{
}

/// The same discipline for transport events.
pub proof fn lemma_net_paints_once(s: SessionView, ev: NetEvent)
    requires
        !s.dirty,
        net_step(s, ev).0.status != AppStatus::InCall,
    ensures
        paint_screen(net_step(s, ev).0) is Some <==> net_step(s, ev).0 != s,
        paint_screen(SessionView { dirty: false, ..net_step(s, ev).0 }) is None,
{
}

/// The same discipline for download reports.
pub proof fn lemma_download_paints_once(s: SessionView, index: int, state: DownloadStateView)
    requires
        !s.dirty,
        s.status != AppStatus::InCall,
    ensures
        paint_screen(download_step(s, index, state)) is Some <==> download_step(s, index, state)
            != s,
        paint_screen(SessionView { dirty: false, ..download_step(s, index, state) }) is None,
{
}

/// The publish that tells the other peers that the call is over.
pub fn end_call() -> (r: Action)
    ensures
        r@ == publish(Topic::Control, control_json(ControlMessage::EndCall)),
{
    Action::Publish { topic: Topic::Control, payload: ControlMessage::EndCall.to_json() }
}

proof fn lemma_push_view<T: View>(v: Seq<T>, x: T)
    ensures
        v.push(x).map_values(|a: T| a@) == v.map_values(|a: T| a@).push(x@),
{
    assert(v.push(x).map_values(|a: T| a@) =~= v.map_values(|a: T| a@).push(x@));
}

impl Session {
    pub open spec fn wf(&self) -> bool {
        self.tui.wf()
    }

    /// A session in the given state with an empty view model; the first
    /// screen is still to be painted.
    pub fn new(local_peer_id: String, status: AppStatus, no_camera_frame: String) -> (r: Session)
        ensures
            r.wf(),
            r@ == (SessionView {
                status,
                local_peer_id: local_peer_id@,
                remote_views: Map::empty(),
                listen_addresses: seq![],
                messages: seq![],
                downloads: seq![],
                input: seq![],
                input_mode: false,
                audio_muted: false,
                video_muted: false,
                dirty: true,
                no_camera_frame: no_camera_frame@,
            }),
    {
        let r = Session {
            status,
            local_peer_id,
            tui: Tui::new(),
            audio_muted: false,
            video_muted: false,
            dirty: true,
            no_camera_frame,
        };
        assert(r@.remote_views =~= Map::empty());
        assert(r@.listen_addresses =~= seq![]);
        assert(r@.messages =~= seq![]);
        assert(r@.downloads =~= seq![]);
        assert(r@.input =~= seq![]);
        r
    }

    fn push_message(&mut self, line: String)
        requires
            old(self).wf(),
        ensures
            final(self).wf(),
            final(self)@ == (SessionView {
                messages: old(self)@.messages.push(line@),
                ..old(self)@
            }),
    {
        proof {
            lemma_push_view(self.tui.messages@, line);
        }
        self.tui.messages.push(line);
    }

    fn end_call(&self, actions: &mut Vec<Action>)
        ensures
            actions_view(final(actions)@) == actions_view(old(actions)@) + end_call_actions(),
    {
        let a = end_call();
        proof {
            lemma_push_view(actions@, a);
        }
        actions.push(a);
        proof {
            lemma_push_view(actions@, Action::Quit);
        }
        actions.push(Action::Quit);
        assert(actions_view(actions@) =~= actions_view(old(actions)@) + end_call_actions());
    }

    /// Handles a key press.
    pub fn on_key(&mut self, key: Key) -> (r: Vec<Action>)
        requires
            old(self).wf(),
        ensures
            final(self).wf(),
            (final(self)@, actions_view(r@)) == key_step(old(self)@, key),
    {
        let mut actions: Vec<Action> = Vec::new();
        if self.tui.input_mode {
            match key {
                Key::Char(c) => {
                    push_char(&mut self.tui.input, c);
                    self.dirty = true;
                },
                Key::Backspace => {
                    let _ = pop_char(&mut self.tui.input);
                    self.dirty = true;
                },
                Key::Enter => {
                    let text = self.tui.input.clone();
                    self.tui.input = String::new();
                    let msg = ChatMessage { peer_id: self.local_peer_id.clone(), message: text };
                    let payload = msg.to_json();
                    actions.push(Action::Publish { topic: Topic::Chat, payload });
                    let line = concat_str("You: ", msg.message.as_str());
                    self.push_message(line);
                    self.tui.input_mode = false;
                    self.dirty = true;
                },
                Key::Esc => {
                    self.tui.input = String::new();
                    self.tui.input_mode = false;
                    self.dirty = true;
                },
                Key::Other => {},
            }
        } else {
            match key {
                Key::Char('q') => {
                    if self.status != AppStatus::WaitingForPeers {
                        self.end_call(&mut actions);
                    } else {
                        actions.push(Action::Quit);
                    }
                },
                Key::Char('i') => {
                    self.tui.input_mode = true;
                    self.dirty = true;
                },
                Key::Char('m') => {
                    self.audio_muted = !self.audio_muted;
                    self.dirty = true;
                },
                Key::Char('v') => {
                    self.video_muted = !self.video_muted;
                    self.dirty = true;
                },
                Key::Char('f') => {
                    actions.push(Action::PickFile);
                },
                _ => {},
            }
        }
        assert(actions_view(actions@) =~= key_step(old(self)@, key).1);
        actions
    }

    fn on_message(&mut self, m: Incoming) -> (r: Vec<Action>)
        requires
            old(self).wf(),
        ensures
            final(self).wf(),
            (final(self)@, actions_view(r@)) == message_step(old(self)@, m),
    {
        let ghost m0 = m;
        let mut actions: Vec<Action> = Vec::new();
        match m {
            Incoming::Video(fd) => {
                if fd.peer_id != self.local_peer_id {
                    self.tui.update_frame(fd);
                    self.dirty = true;
                }
            },
            Incoming::Audio { peer_id } => {
                if peer_id != self.local_peer_id {
                    actions.push(Action::PlayAudio);
                }
            },
            Incoming::Chat(c) => {
                if c.peer_id != self.local_peer_id {
                    let short = short_peer_id(c.peer_id.as_str());
                    let mut line = concat_str(short.as_str(), ": ");
                    line.append(c.message.as_str());
                    self.push_message(line);
                    self.dirty = true;
                }
            },
            Incoming::File(f) => {
                if f.peer_id != self.local_peer_id {
                    let index = self.tui.downloads.len();
                    let FileMessage { peer_id, file_name, content } = f;
                    let safe = is_safe_file_name(file_name.as_str());
                    let d = FileDownload {
                        file_name: file_name.clone(),
                        peer_id,
                        state: if safe {
                            FileDownloadState::Downloading
                        } else {
                            FileDownloadState::Failed
                        },
                    };
                    proof {
                        lemma_push_view(self.tui.downloads@, d);
                    }
                    self.tui.downloads.push(d);
                    if safe {
                        actions.push(Action::SaveFile { index, file_name, content });
                    }
                    self.dirty = true;
                }
            },
            Incoming::Control(ControlMessage::EndCall) => {
                actions.push(Action::Quit);
            },
        }
        assert(actions_view(actions@) =~= message_step(old(self)@, m0).1);
        actions
    }

    /// Handles an event of the transport.
    pub fn on_network(&mut self, ev: NetEvent) -> (r: Vec<Action>)
        requires
            old(self).wf(),
        ensures
            final(self).wf(),
            (final(self)@, actions_view(r@)) == net_step(old(self)@, ev),
    {
        let ghost ev0 = ev;
        let mut actions: Vec<Action> = Vec::new();
        match ev {
            NetEvent::ConnectionEstablished => {
                self.status = AppStatus::InCall;
                self.dirty = true;
            },
            NetEvent::ConnectionClosed => {
                self.end_call(&mut actions);
            },
            NetEvent::NewListenAddr(a) => {
                let mut addr = concat_str(a.as_str(), "/p2p/");
                addr.append(self.local_peer_id.as_str());
                proof {
                    lemma_push_view(self.tui.listen_addresses@, addr);
                }
                self.tui.add_listen_address(addr);
                self.dirty = true;
            },
            NetEvent::Message(m) => {
                actions = self.on_message(m);
            },
            _ => {},
        }
        assert(actions_view(actions@) =~= net_step(old(self)@, ev0).1);
        actions
    }

    /// Handles a media tick; `captured` is the camera's frame, if it gave
    /// one.
    pub fn on_tick(&self, captured: Option<String>) -> (r: Vec<Action>)
        ensures
            actions_view(r@) == tick_actions(self@, opt_view(captured)),
    {
        let ghost c0 = captured;
        let mut actions: Vec<Action> = Vec::new();
        if self.status != AppStatus::InCall {
            assert(actions_view(actions@) =~= seq![]);
            return actions;
        }
        let frame = if self.video_muted {
            self.no_camera_frame.clone()
        } else {
            match captured {
                Some(f) => f,
                None => self.no_camera_frame.clone(),
            }
        };
        let fd = FrameData {
            peer_id: self.local_peer_id.clone(),
            frame: frame.clone(),
            is_audio_muted: self.audio_muted,
            is_video_muted: self.video_muted,
        };
        let payload = fd.to_json();
        actions.push(Action::Publish { topic: Topic::Video, payload });
        if !self.audio_muted {
            actions.push(Action::SendCapturedAudio);
        }
        actions.push(Action::PaintInCall { frame });
        assert(actions_view(actions@) =~= tick_actions(self@, opt_view(c0)));
        actions
    }

    /// Records the outcome of saving the download at `index`.
    pub fn on_download_status(&mut self, index: usize, state: FileDownloadState)
        requires
            old(self).wf(),
        ensures
            final(self).wf(),
            final(self)@ == download_step(old(self)@, index as int, state@),
    {
        if index < self.tui.downloads.len() {
            let file_name = self.tui.downloads[index].file_name.clone();
            let peer_id = self.tui.downloads[index].peer_id.clone();
            let d = FileDownload { file_name, peer_id, state };
            proof {
                assert(self.tui.downloads@.update(index as int, d).map_values(
                    |x: FileDownload| x@,
                ) =~= self@.downloads.update(index as int, d@));
            }
            self.tui.downloads.set(index, d);
            self.dirty = true;
        }
    }

    /// Decides the redraw before the loop waits again, and clears the
    /// dirty flag.
    pub fn paint(&mut self) -> (r: Option<Screen>)
        ensures
            r == paint_screen(old(self)@),
            final(self)@ == (SessionView { dirty: false, ..old(self)@ }),
            final(self).tui == old(self).tui,
    {
        let r = if !self.dirty {
            None
        } else {
            match self.status {
                AppStatus::WaitingForPeers => Some(Screen::Waiting),
                AppStatus::Joining => Some(Screen::Joining),
                AppStatus::InCall => None,
            }
        };
        self.dirty = false;
        r
    }

    /// The publish of a file that the user picked.
    pub fn file_action(&self, file_name: String, content: Vec<u8>) -> (r: Action)
        ensures
            r@ == publish(Topic::File, file_json(self.local_peer_id@, file_name@, content@)),
    {
        let msg = FileMessage { peer_id: self.local_peer_id.clone(), file_name, content };
        Action::Publish { topic: Topic::File, payload: msg.to_json() }
    }

    /// Notes in the chat that a file went out.
    pub fn on_file_sent(&mut self, file_name: &str)
        requires
            old(self).wf(),
        ensures
            final(self).wf(),
            final(self)@ == (SessionView {
                messages: old(self)@.messages.push("You sent a file: "@ + file_name@),
                dirty: true,
                ..old(self)@
            }),
    {
        let line = concat_str("You sent a file: ", file_name);
        self.push_message(line);
        self.dirty = true;
    }
}

} // verus!
