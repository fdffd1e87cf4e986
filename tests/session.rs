use rust_meet::messages::{AppStatus, ChatMessage, ControlMessage, FileMessage, FrameData, Topic};
use rust_meet::session::{Action, Incoming, Key, NetEvent, Screen, Session};
use rust_meet::tui::FileDownloadState;

const LOCAL: &str = "12D3KooWLocalPeerIdentity";
const REMOTE: &str = "12D3KooWRemotePeerXYZ123";

fn session(status: AppStatus) -> Session {
    Session::new(LOCAL.to_string(), status, "no camera\n".to_string())
}

fn in_call() -> Session {
    let mut s = session(AppStatus::WaitingForPeers);
    let r = s.on_network(NetEvent::ConnectionEstablished);
    assert!(r.is_empty());
    s.paint();
    s
}

fn video(peer: &str, frame: &str, audio: bool, video: bool) -> NetEvent {
    NetEvent::Message(Incoming::Video(FrameData {
        peer_id: peer.to_string(),
        frame: frame.to_string(),
        is_audio_muted: audio,
        is_video_muted: video,
    }))
}

fn chat(peer: &str, text: &str) -> NetEvent {
    NetEvent::Message(Incoming::Chat(ChatMessage {
        peer_id: peer.to_string(),
        message: text.to_string(),
    }))
}

fn file(peer: &str, name: &str, content: Vec<u8>) -> NetEvent {
    NetEvent::Message(Incoming::File(FileMessage {
        peer_id: peer.to_string(),
        file_name: name.to_string(),
        content,
    }))
}

fn publishes(actions: &[Action]) -> Vec<(Topic, String)> {
    actions
        .iter()
        .filter_map(|a| match a {
            Action::Publish { topic, payload } => Some((*topic, payload.clone())),
            _ => None,
        })
        .collect()
}

fn json(s: &str) -> serde_json::Value {
    serde_json::from_str(s).expect("valid JSON")
}

#[test]
fn waiting_screen_lists_decorated_listen_address() {
    let mut s = session(AppStatus::WaitingForPeers);
    assert_eq!(s.paint(), Some(Screen::Waiting));
    let r = s.on_network(NetEvent::NewListenAddr("/ip4/127.0.0.1/tcp/4242".to_string()));
    assert!(r.is_empty());
    assert_eq!(s.paint(), Some(Screen::Waiting));
    assert_eq!(
        s.tui.listen_addresses,
        vec![format!("/ip4/127.0.0.1/tcp/4242/p2p/{}", LOCAL)]
    );
}

#[test]
fn connection_established_starts_call_and_tick_publishes_one_video() {
    let mut s = session(AppStatus::WaitingForPeers);
    assert!(s.on_tick(Some("frame".to_string())).is_empty());
    s.on_network(NetEvent::ConnectionEstablished);
    assert_eq!(s.status, AppStatus::InCall);
    let r = s.on_tick(Some("frame\n".to_string()));
    let p = publishes(&r);
    assert_eq!(p.len(), 1);
    assert_eq!(p[0].0, Topic::Video);
    let v = json(&p[0].1);
    assert_eq!(v["peer_id"], LOCAL);
    assert_eq!(v["frame"], "frame\n");
    assert_eq!(v["is_audio_muted"], false);
    assert_eq!(v["is_video_muted"], false);
    assert!(matches!(r[1], Action::SendCapturedAudio));
    assert!(matches!(&r[2], Action::PaintInCall { frame } if frame == "frame\n"));
    assert_eq!(r.len(), 3);
}

#[test]
fn join_starts_in_joining_screen() {
    let mut s = session(AppStatus::Joining);
    assert_eq!(s.paint(), Some(Screen::Joining));
    assert_eq!(s.paint(), None);
}

#[test]
fn remote_chat_line_uses_short_peer_id() {
    let mut s = in_call();
    s.on_network(chat("P", "hi"));
    assert_eq!(s.tui.messages.last().unwrap(), "P: hi");
    s.on_network(chat(REMOTE, "hello there"));
    assert_eq!(s.tui.messages.last().unwrap(), "XYZ123: hello there");
    assert!(s.dirty);
}

#[test]
fn received_file_becomes_download_and_save_request() {
    let mut s = in_call();
    let r = s.on_network(file("P", "a.txt", vec![104, 105]));
    assert_eq!(s.tui.downloads.len(), 1);
    assert_eq!(s.tui.downloads[0].file_name, "a.txt");
    assert_eq!(s.tui.downloads[0].peer_id, "P");
    assert!(matches!(s.tui.downloads[0].state, FileDownloadState::Downloading));
    assert_eq!(r.len(), 1);
    match &r[0] {
        Action::SaveFile { index, file_name, content } => {
            assert_eq!(*index, 0);
            assert_eq!(file_name, "a.txt");
            assert_eq!(content, &vec![104u8, 105]);
        }
        other => panic!("unexpected action {:?}", other),
    }
    s.on_download_status(0, FileDownloadState::Completed("/home/u/Downloads/a.txt".to_string()));
    match &s.tui.downloads[0].state {
        FileDownloadState::Completed(p) => assert_eq!(p, "/home/u/Downloads/a.txt"),
        other => panic!("unexpected state {:?}", other),
    }
}

#[test]
fn download_status_out_of_range_is_dropped() {
    let mut s = in_call();
    s.on_network(file("P", "a.txt", vec![1]));
    s.paint();
    s.on_download_status(5, FileDownloadState::Failed);
    assert!(!s.dirty);
    assert!(matches!(s.tui.downloads[0].state, FileDownloadState::Downloading));
    s.on_download_status(0, FileDownloadState::Failed);
    assert!(s.dirty);
    assert!(matches!(s.tui.downloads[0].state, FileDownloadState::Failed));
}

#[test]
fn traversal_file_name_is_not_saved() {
    let mut s = in_call();
    let r = s.on_network(file("P", "../../x", vec![1, 2]));
    assert!(r.is_empty());
    assert_eq!(s.tui.downloads.len(), 1);
    assert!(matches!(s.tui.downloads[0].state, FileDownloadState::Failed));
    let r = s.on_network(file("P", "..", vec![]));
    assert!(r.is_empty());
    let r = s.on_network(file("P", "b.bin", vec![]));
    assert!(matches!(r[0], Action::SaveFile { index: 2, .. }));
}

#[test]
fn second_video_frame_replaces_first() {
    let mut s = in_call();
    s.on_network(video("P", "F1", false, false));
    s.on_network(video("P", "F2", true, false));
    assert_eq!(s.tui.remote_frames.len(), 1);
    assert_eq!(s.tui.remote_frames[0].peer_id, "P");
    assert_eq!(s.tui.remote_frames[0].last_frame, "F2");
    assert!(s.tui.remote_frames[0].audio_muted);
    s.on_network(video("Q", "G1", false, true));
    s.on_network(video("P", "F3", false, false));
    assert_eq!(s.tui.remote_frames.len(), 2);
    assert_eq!(s.tui.remote_frames[0].last_frame, "F3");
    assert_eq!(s.tui.remote_frames[1].last_frame, "G1");
}

#[test]
fn end_call_message_terminates_without_publish() {
    let mut s = in_call();
    let r = s.on_network(NetEvent::Message(Incoming::Control(ControlMessage::EndCall)));
    assert_eq!(r.len(), 1);
    assert!(matches!(r[0], Action::Quit));
}

#[test]
fn connection_closed_sends_end_call_and_quits() {
    let mut s = in_call();
    let r = s.on_network(NetEvent::ConnectionClosed);
    assert_eq!(r.len(), 2);
    assert_eq!(publishes(&r), vec![(Topic::Control, "\"EndCall\"".to_string())]);
    assert!(matches!(r[1], Action::Quit));
}

#[test]
fn other_transport_events_change_nothing() {
    let mut s = in_call();
    assert!(s.on_network(NetEvent::IncomingConnectionError).is_empty());
    assert!(s.on_network(NetEvent::Other).is_empty());
    assert!(!s.dirty);
}

#[test]
fn own_messages_are_ignored() {
    let mut s = in_call();
    assert!(s.on_network(video(LOCAL, "F", false, false)).is_empty());
    assert!(s.on_network(chat(LOCAL, "hi")).is_empty());
    assert!(s.on_network(file(LOCAL, "a.txt", vec![1])).is_empty());
    let r = s.on_network(NetEvent::Message(Incoming::Audio { peer_id: LOCAL.to_string() }));
    assert!(r.is_empty());
    assert!(s.tui.remote_frames.is_empty());
    assert!(s.tui.messages.is_empty());
    assert!(s.tui.downloads.is_empty());
    assert!(!s.dirty);
    let r = s.on_network(NetEvent::Message(Incoming::Audio { peer_id: "P".to_string() }));
    assert_eq!(r.len(), 1);
    assert!(matches!(r[0], Action::PlayAudio));
}

#[test]
fn muted_video_sends_synthetic_frame() {
    let mut s = in_call();
    assert!(s.on_key(Key::Char('v')).is_empty());
    assert!(s.video_muted);
    for _ in 0..3 {
        let r = s.on_tick(Some("camera\n".to_string()));
        let p = publishes(&r);
        assert_eq!(p.len(), 1);
        let v = json(&p[0].1);
        assert_eq!(v["is_video_muted"], true);
        assert_eq!(v["frame"], "no camera\n");
    }
    s.on_key(Key::Char('v'));
    let r = s.on_tick(None);
    let v = json(&publishes(&r)[0].1);
    assert_eq!(v["frame"], "no camera\n");
    assert_eq!(v["is_video_muted"], false);
}

#[test]
fn muted_audio_sends_no_audio() {
    let mut s = in_call();
    s.on_key(Key::Char('m'));
    assert!(s.audio_muted);
    let r = s.on_tick(Some("x".to_string()));
    assert_eq!(r.len(), 2);
    assert!(!r.iter().any(|a| matches!(a, Action::SendCapturedAudio)));
    let v = json(&publishes(&r)[0].1);
    assert_eq!(v["is_audio_muted"], true);
}

#[test]
fn chat_round_trip() {
    let mut s = in_call();
    let mut all = Vec::new();
    all.extend(s.on_key(Key::Char('i')));
    assert!(s.tui.input_mode);
    for c in "hello".chars() {
        all.extend(s.on_key(Key::Char(c)));
    }
    assert_eq!(s.tui.input, "hello");
    all.extend(s.on_key(Key::Enter));
    let p = publishes(&all);
    assert_eq!(p.len(), 1);
    assert_eq!(p[0].0, Topic::Chat);
    let v = json(&p[0].1);
    assert_eq!(v["message"], "hello");
    assert_eq!(v["peer_id"], LOCAL);
    assert_eq!(s.tui.messages, vec!["You: hello".to_string()]);
    assert_eq!(s.tui.input, "");
    assert!(!s.tui.input_mode);
}

#[test]
fn input_editing_keys() {
    let mut s = session(AppStatus::WaitingForPeers);
    s.on_key(Key::Char('i'));
    s.on_key(Key::Char('a'));
    s.on_key(Key::Char('q'));
    assert_eq!(s.tui.input, "aq");
    s.on_key(Key::Backspace);
    assert_eq!(s.tui.input, "a");
    s.on_key(Key::Backspace);
    s.on_key(Key::Backspace);
    assert_eq!(s.tui.input, "");
    s.on_key(Key::Char('z'));
    assert!(s.on_key(Key::Esc).is_empty());
    assert_eq!(s.tui.input, "");
    assert!(!s.tui.input_mode);
    assert!(s.tui.messages.is_empty());
}

#[test]
fn quit_in_call_publishes_one_end_call() {
    let mut s = in_call();
    let r = s.on_key(Key::Char('q'));
    assert_eq!(publishes(&r), vec![(Topic::Control, "\"EndCall\"".to_string())]);
    assert_eq!(r.len(), 2);
    assert!(matches!(r[1], Action::Quit));
    let c: String = serde_json::from_str(&publishes(&r)[0].1).unwrap();
    assert_eq!(c, "EndCall");
}

#[test]
fn quit_while_waiting_publishes_nothing() {
    let mut s = session(AppStatus::WaitingForPeers);
    let r = s.on_key(Key::Char('q'));
    assert_eq!(r.len(), 1);
    assert!(matches!(r[0], Action::Quit));
    let mut j = session(AppStatus::Joining);
    assert_eq!(j.on_key(Key::Char('q')).len(), 2);
}

#[test]
fn file_key_asks_for_picker_and_send_is_noted() {
    let mut s = in_call();
    let r = s.on_key(Key::Char('f'));
    assert_eq!(r.len(), 1);
    assert!(matches!(r[0], Action::PickFile));
    let a = s.file_action("notes.txt".to_string(), vec![104, 105]);
    let p = publishes(&[a]);
    assert_eq!(p[0].0, Topic::File);
    let v = json(&p[0].1);
    assert_eq!(v["peer_id"], LOCAL);
    assert_eq!(v["file_name"], "notes.txt");
    let bytes: Vec<u64> = v["content"]
        .as_array()
        .unwrap()
        .iter()
        .map(|x| x.as_u64().unwrap())
        .collect();
    assert_eq!(bytes, vec![104, 105]);
    s.paint();
    s.on_file_sent("notes.txt");
    assert_eq!(s.tui.messages, vec!["You sent a file: notes.txt".to_string()]);
    assert!(s.dirty);
}

#[test]
fn static_screens_paint_once_per_change() {
    let mut s = session(AppStatus::WaitingForPeers);
    let mut paints = 0;
    let mut changes = 1;
    if s.paint().is_some() {
        paints += 1;
    }
    assert_eq!(s.paint(), None);
    let events = vec![
        NetEvent::NewListenAddr("/ip4/10.0.0.1/tcp/1".to_string()),
        NetEvent::IncomingConnectionError,
        NetEvent::NewListenAddr("/ip4/10.0.0.2/tcp/2".to_string()),
        NetEvent::Other,
        chat("P", "early"),
    ];
    for ev in events {
        s.on_network(ev);
        if s.dirty {
            changes += 1;
        }
        if s.paint().is_some() {
            paints += 1;
        }
    }
    for k in [Key::Char('m'), Key::Char('x'), Key::Char('i'), Key::Char('a'), Key::Other] {
        s.on_key(k);
        if s.dirty {
            changes += 1;
        }
        if s.paint().is_some() {
            paints += 1;
        }
    }
    assert_eq!(changes, 7);
    assert_eq!(paints, changes);
}

#[test]
fn in_call_paint_is_left_to_ticks() {
    let mut s = in_call();
    s.on_key(Key::Char('m'));
    assert!(s.dirty);
    assert_eq!(s.paint(), None);
    assert!(!s.dirty);
}
