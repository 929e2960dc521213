//! The two sinks of a publication: its topic's log file and the console.
//!
//! A record for the log file is the plain timestamp, the payload as it came
//! and a newline. A record for the console is the colourised timestamp, the
//! topic in blue between brackets, the payload and a newline. Payload bytes
//! are never escaped.

use vstd::prelude::*;
use vstd::utf8::encode_utf8;

use crate::effect::{Effect, EffectView};
use crate::protocol::Publication;
use crate::registry::{handle_of, TopicRegistry};
use crate::timestamp::{
    blue_code, colorized_text, plain_text, push_blue, push_reset, reset_code, Rendering, Timestamp,
    CLOSE_BRACKET, NEWLINE, OPEN_BRACKET, SPACE,
};

verus! {

/// The record that a publication adds to its log file.
pub open spec fn file_record(t: Timestamp, payload: Seq<u8>) -> Seq<u8> {
    plain_text(t) + payload + seq![NEWLINE]
}

/// The topic as the console shows it: in blue, between brackets, followed by
/// one space.
pub open spec fn topic_tag(topic: Seq<char>) -> Seq<u8> {
    reset_code() + seq![OPEN_BRACKET] + blue_code() + encode_utf8(topic) + reset_code()
        + seq![CLOSE_BRACKET, SPACE]
}

/// The record that a publication adds to the console.
pub open spec fn console_record(t: Timestamp, topic: Seq<char>, payload: Seq<u8>) -> Seq<u8> {
    colorized_text(t) + topic_tag(topic) + payload + seq![NEWLINE]
}

/// The line that reports a publication whose topic has no log file.
pub open spec fn unknown_topic_warning(topic: Seq<char>) -> Seq<char> {
    "Got packet from topic "@ + topic + ", but that topic file was not created!"@
}

/// What the file sink does with a publication: it appends the record to the
/// log file of the topic, or reports a topic that has none.
pub open spec fn file_effect(
    files: Seq<Seq<char>>,
    t: Timestamp,
    topic: Seq<char>,
    payload: Seq<u8>,
) -> EffectView {
    match handle_of(files, topic) {
        Some(handle) => EffectView::Append { handle, bytes: file_record(t, payload) },
        None => EffectView::Diagnostic { line: unknown_topic_warning(topic) },
    }
}

/// What the console sink does with a publication.
pub open spec fn console_effect(t: Timestamp, topic: Seq<char>, payload: Seq<u8>) -> EffectView {
    EffectView::Console { bytes: console_record(t, topic, payload) }
}

/// Appends `bytes` to `out`.
pub fn append_bytes(out: &mut Vec<u8>, bytes: &[u8])
    ensures
        final(out)@ == old(out)@ + bytes@,
{
    let mut i: usize = 0;
    while i < bytes.len()
        invariant
            i <= bytes.len(),
            out@ == old(out)@ + bytes@.subrange(0, i as int),
        decreases bytes.len() - i,
    {
        out.push(bytes[i]);
        i = i + 1;
    }
}

/// Routes a publication to its log file.
///
/// For a registered topic the result appends one record to that topic's file
/// and to no other. For any other topic it is a warning that names the topic,
/// and nothing is written.
pub fn write_to_file(timestamp: &Rendering, data: &Publication, files: &TopicRegistry) -> (effect:
    Effect)
    ensures
        effect@ == file_effect(files@, timestamp.instant(), data.topic@, data.payload@),
{
    match files.lookup(&data.topic) {
        Some(handle) => {
            let mut bytes: Vec<u8> = Vec::new();
            append_bytes(&mut bytes, timestamp.plain().as_slice());
            append_bytes(&mut bytes, data.payload.as_slice());
            bytes.push(NEWLINE);
            assert(bytes@ =~= file_record(timestamp.instant(), data.payload@));
            Effect::Append { handle, bytes }
        },
        None => {
            let mut line = String::from_str("Got packet from topic ");
            line.append(data.topic.as_str());
            line.append(", but that topic file was not created!");
            Effect::Diagnostic { line }
        },
    }
}

/// Renders a publication for the console.
pub fn write_to_stdout(timestamp: &Rendering, data: &Publication) -> (effect: Effect)
    ensures
        effect@ == console_effect(timestamp.instant(), data.topic@, data.payload@),
{
    let mut bytes: Vec<u8> = Vec::new();
    append_bytes(&mut bytes, timestamp.colorized().as_slice());
    push_reset(&mut bytes);
    bytes.push(OPEN_BRACKET);
    push_blue(&mut bytes);
    append_bytes(&mut bytes, data.topic.as_str().as_bytes());
    push_reset(&mut bytes);
    bytes.push(CLOSE_BRACKET);
    bytes.push(SPACE);
    append_bytes(&mut bytes, data.payload.as_slice());
    bytes.push(NEWLINE);
    assert(bytes@ =~= console_record(timestamp.instant(), data.topic@, data.payload@));
    Effect::Console { bytes }
}

} // verus!
