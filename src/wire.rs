//! The JSON envelopes that the session publishes. Each field is written
//! in declaration order, as a derived serializer writes it; the quoting
//! and escaping of text is serde_json's.

use vstd::prelude::*;
use crate::messages::{ControlMessage, FrameData, ChatMessage, FileMessage};
use crate::text::push_char;

verus! {

#[verifier::external_type_specification]
#[verifier::external_body]
pub struct ExJsonError(serde_json::Error);

/// The JSON string literal that serde_json writes for the text `s`.
pub uninterp spec fn json_str_of(s: Seq<char>) -> Seq<char>;

/// Relies on `serde_json::to_string` applied to a `str`: the result is the
/// quoted and escaped JSON string. A `str` serializes through
/// `serialize_str`, which writes into an in-memory buffer and so does not
/// fail.
#[verifier::external_body]
fn json_quote(s: &str) -> (r: Result<String, serde_json::Error>)
    ensures
        r is Ok,
        r.unwrap()@ == json_str_of(s@),
{
    serde_json::to_string(s)
}

/// The JSON string literal for `s`.
pub fn quoted(s: &str) -> (r: String)
    ensures
        r@ == json_str_of(s@),
{
    match json_quote(s) {
        Ok(t) => t,
        Err(_) => String::new(),
    }
}

pub open spec fn bool_json(b: bool) -> Seq<char> {
    if b {
        "true"@
    } else {
        "false"@
    }
}

pub open spec fn digit_char(d: nat) -> char {
    ((48 + d) as u8) as char
}

/// The decimal digits of `n`, without leading zeros.
pub open spec fn decimal(n: nat) -> Seq<char>
    decreases n,
{
    if n < 10 {
        seq![digit_char(n)]
    } else {
        decimal(n / 10).push(digit_char(n % 10))
    }
}

/// The numbers of `b` in decimal, separated by commas.
pub open spec fn byte_list(b: Seq<u8>) -> Seq<char>
    decreases b.len(),
{
    if b.len() == 0 {
        Seq::empty()
    } else if b.len() == 1 {
        decimal(b[0] as nat)
    } else {
        byte_list(b.drop_last()) + seq![','] + decimal(b.last() as nat)
    }
}

/// A JSON array of the bytes `b`.
pub open spec fn bytes_json(b: Seq<u8>) -> Seq<char> {
    seq!['['] + byte_list(b) + seq![']']
}

pub open spec fn frame_json(
    peer_id: Seq<char>,
    frame: Seq<char>,
    is_audio_muted: bool,
    is_video_muted: bool,
) -> Seq<char> {
    "{\"peer_id\":"@ + json_str_of(peer_id) + ",\"frame\":"@ + json_str_of(frame)
        + ",\"is_audio_muted\":"@ + bool_json(is_audio_muted) + ",\"is_video_muted\":"@
        + bool_json(is_video_muted) + "}"@
}

pub open spec fn chat_json(peer_id: Seq<char>, message: Seq<char>) -> Seq<char> {
    "{\"peer_id\":"@ + json_str_of(peer_id) + ",\"message\":"@ + json_str_of(message) + "}"@
}

pub open spec fn file_json(peer_id: Seq<char>, file_name: Seq<char>, content: Seq<u8>) -> Seq<char> {
    "{\"peer_id\":"@ + json_str_of(peer_id) + ",\"file_name\":"@ + json_str_of(file_name)
        + ",\"content\":"@ + bytes_json(content) + "}"@
}

/// A unit variant is written as its name in quotes.
pub open spec fn control_json(m: ControlMessage) -> Seq<char> {
    match m {
        ControlMessage::EndCall => json_str_of("EndCall"@),
    }
}

fn append_bool(out: &mut String, b: bool)
    ensures
        final(out)@ == old(out)@ + bool_json(b),
{
    if b {
        out.append("true");
    } else {
        out.append("false");
    }
}

/// Appends the decimal digits of `n`.
pub fn append_decimal(out: &mut String, n: u8)
    ensures
        final(out)@ == old(out)@ + decimal(n as nat),
{
    proof {
        reveal_with_fuel(decimal, 3);
    }
    if n >= 100 {
        push_char(out, (48 + n / 100) as char);
    }
    if n >= 10 {
        push_char(out, (48 + (n / 10) % 10) as char);
    }
    push_char(out, (48 + n % 10) as char);
    proof {
        if n >= 100 {
            assert(decimal(n as nat / 10) == decimal(n as nat / 100).push(
                digit_char((n as nat / 10) % 10),
            ));
        }
    }
    assert(final(out)@ =~= old(out)@ + decimal(n as nat));
}

proof fn lemma_byte_list_step(b: Seq<u8>, i: int)
    requires
        0 <= i < b.len(),
    ensures
        byte_list(b.subrange(0, i + 1)) == if i == 0 {
            decimal(b[0] as nat)
        } else {
            byte_list(b.subrange(0, i)) + seq![','] + decimal(b[i] as nat)
        },
{
    assert(b.subrange(0, i + 1).drop_last() =~= b.subrange(0, i));
}

/// Appends the JSON array of `b`.
pub fn append_bytes(out: &mut String, b: &[u8])
    ensures
        final(out)@ == old(out)@ + bytes_json(b@),
{
    push_char(out, '[');
    let mut i: usize = 0;
    while i < b.len()
        invariant
            0 <= i <= b@.len(),
            out@ == old(out)@ + seq!['['] + byte_list(b@.subrange(0, i as int)),
        decreases b@.len() - i,
    {
        proof {
            lemma_byte_list_step(b@, i as int);
        }
        if i > 0 {
            push_char(out, ',');
        }
        append_decimal(out, b[i]);
        i = i + 1;
        assert(out@ =~= old(out)@ + seq!['['] + byte_list(b@.subrange(0, i as int)));
    }
    push_char(out, ']');
    assert(b@.subrange(0, b@.len() as int) =~= b@);
    assert(out@ =~= old(out)@ + bytes_json(b@));
}

impl FrameData {
    /// The envelope as published on the video topic.
    pub fn to_json(&self) -> (r: String)
        ensures
            r@ == frame_json(
                self.peer_id@,
                self.frame@,
                self.is_audio_muted,
                self.is_video_muted,
            ),
    {
        let mut out = String::from_str("{\"peer_id\":");
        out.append(quoted(self.peer_id.as_str()).as_str());
        out.append(",\"frame\":");
        out.append(quoted(self.frame.as_str()).as_str());
        out.append(",\"is_audio_muted\":");
        append_bool(&mut out, self.is_audio_muted);
        out.append(",\"is_video_muted\":");
        append_bool(&mut out, self.is_video_muted);
        out.append("}");
        out
    }
}

impl ChatMessage {
    /// The envelope as published on the chat topic.
    pub fn to_json(&self) -> (r: String)
        ensures
            r@ == chat_json(self.peer_id@, self.message@),
    {
        let mut out = String::from_str("{\"peer_id\":");
        out.append(quoted(self.peer_id.as_str()).as_str());
        out.append(",\"message\":");
        out.append(quoted(self.message.as_str()).as_str());
        out.append("}");
        out
    }
}

impl FileMessage {
    /// The envelope as published on the file topic.
    pub fn to_json(&self) -> (r: String)
        ensures
            r@ == file_json(self.peer_id@, self.file_name@, self.content@),
    {
        let mut out = String::from_str("{\"peer_id\":");
        out.append(quoted(self.peer_id.as_str()).as_str());
        out.append(",\"file_name\":");
        out.append(quoted(self.file_name.as_str()).as_str());
        out.append(",\"content\":");
        append_bytes(&mut out, self.content.as_slice());
        out.append("}");
        out
    }
}

impl ControlMessage {
    /// The message as published on the control topic.
    pub fn to_json(&self) -> (r: String)
        ensures
            r@ == control_json(*self),
    {
        match self {
            ControlMessage::EndCall => quoted("EndCall"),
        }
    }
}

} // verus!
