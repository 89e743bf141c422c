//! What a tail worker does with each event of its WebSocket: which
//! messages become output lines, which are ignored, and which end the
//! session.

use vstd::prelude::*;
use vstd::string::StringExecFns;
use crate::json::{compact_json, json_compact_text};
use crate::text::string_from_utf8;
use vstd::utf8::{decode_utf8, encode_utf8, valid_utf8};

verus! {

/// The WebSocket subprotocol of Cloudflare tail sessions.
pub const TRACE_PROTOCOL: &'static str = "trace-v1";

/// The first message sent on a tail WebSocket: the tail options.
pub const TAIL_OPTIONS_MESSAGE: &'static str = "{\"debug\":false}";

/// What happened on a tail session's WebSocket.
#[derive(Debug)]
pub enum WsEvent {
    Text(String),
    Binary(Vec<u8>),
    Close,
    Ping,
    Pong,
    Frame,
    /// Reading the socket failed.
    ReadFailed(String),
    /// The stream has no more messages.
    StreamEnded,
    /// The moment to renew the session has come.
    RefreshDue,
}

/// What the worker does with an event.
#[derive(Debug)]
pub enum StreamStep {
    /// Write this line, then go on reading.
    Emit(Vec<u8>),
    /// Go on reading.
    Continue,
    /// End the session normally.
    Finish,
}

/// Why a session failed while streaming.
#[derive(Debug)]
pub enum StreamError {
    NonUtf8Binary { script: String },
    InvalidJson(serde_json::Error),
    ReadFailed { script: String, detail: String },
}

/// A line of output: some bytes without a newline, then a newline.
pub open spec fn is_json_line(line: Seq<u8>) -> bool {
    &&& line.len() >= 1
    &&& line.last() == 10u8
    &&& !line.drop_last().contains(10u8)
}

/// The output line of a JSON message: its compact JSON text and a
/// newline; nothing when it is not JSON.
pub open spec fn json_output_line(raw: Seq<char>) -> Option<Seq<u8>> {
    match json_compact_text(raw) {
        Some(text) => Some(text.push(10u8)),
        None => None,
    }
}

/// The output line of one WebSocket message holding JSON: the message as
/// one line of compact JSON, then a newline.
pub fn json_line(raw: &str) -> (r: Result<Vec<u8>, StreamError>)
    ensures
        r is Ok <==> json_compact_text(raw@) is Some,
        r matches Ok(line) ==> json_output_line(raw@) == Some(line@),
        r matches Ok(line) ==> is_json_line(line@),
        r matches Ok(line) ==> json_compact_text(raw@) == Some(line@.drop_last()),
        r matches Err(e) ==> e is InvalidJson,
{
    match compact_json(raw) {
        Err(e) => Err(StreamError::InvalidJson(e)),
        Ok(text) => {
            let mut line = text;
            let ghost body = line@;
            line.push(10u8);
            assert(line@.drop_last() =~= body);
            Ok(line)
        },
    }
}

/// What to do with a WebSocket event of the session of `script`: text
/// and binary messages hold JSON to write out (binary ones must be
/// UTF-8); a close, the end of the stream and the renewal moment end the
/// session; pings, pongs and raw frames are ignored; a read error fails
/// the session.
pub fn handle_ws_event(script: &str, event: WsEvent) -> (r: Result<StreamStep, StreamError>)
    ensures
        match event {
            WsEvent::Text(t) => {
                &&& (r is Ok <==> json_compact_text(t@) is Some)
                &&& (r matches Ok(step) ==> step matches StreamStep::Emit(line)
                    && json_output_line(t@) == Some(line@) && is_json_line(line@))
                &&& (r matches Err(e) ==> e is InvalidJson)
            },
            WsEvent::Binary(b) => if !valid_utf8(b@) {
                r matches Err(StreamError::NonUtf8Binary { script: s }) && s@ == script@
            } else {
                &&& (r is Ok <==> json_compact_text(decode_utf8(b@)) is Some)
                &&& (r matches Ok(step) ==> step matches StreamStep::Emit(line)
                    && json_output_line(decode_utf8(b@)) == Some(line@) && is_json_line(line@))
                &&& (r matches Err(e) ==> e is InvalidJson)
            },
            WsEvent::Close => r matches Ok(StreamStep::Finish),
            WsEvent::StreamEnded => r matches Ok(StreamStep::Finish),
            WsEvent::RefreshDue => r matches Ok(StreamStep::Finish),
            WsEvent::Ping => r matches Ok(StreamStep::Continue),
            WsEvent::Pong => r matches Ok(StreamStep::Continue),
            WsEvent::Frame => r matches Ok(StreamStep::Continue),
            WsEvent::ReadFailed(d) => r matches Err(StreamError::ReadFailed { script: s, detail: dd })
                && s@ == script@ && dd@ == d@,
        },
{
    match event {
        WsEvent::Text(t) => match json_line(t.as_str()) {
            Ok(line) => Ok(StreamStep::Emit(line)),
            Err(e) => Err(e),
        },
        WsEvent::Binary(b) => match string_from_utf8(b) {
            Some(t) => match json_line(t.as_str()) {
                Ok(line) => Ok(StreamStep::Emit(line)),
                Err(e) => Err(e),
            },
            None => Err(StreamError::NonUtf8Binary { script: String::from_str(script) }),
        },
        WsEvent::Close => Ok(StreamStep::Finish),
        WsEvent::StreamEnded => Ok(StreamStep::Finish),
        WsEvent::RefreshDue => Ok(StreamStep::Finish),
        WsEvent::Ping => Ok(StreamStep::Continue),
        WsEvent::Pong => Ok(StreamStep::Continue),
        WsEvent::Frame => Ok(StreamStep::Continue),
        WsEvent::ReadFailed(detail) => Err(
            StreamError::ReadFailed { script: String::from_str(script), detail },
        ),
    }
}

/// The line of a JSON message is its whole compact text, byte for byte,
/// followed by one newline: one byte longer than the text, nothing cut.
pub proof fn law_line_is_the_whole_compact_text(raw: Seq<char>)
    ensures
        json_compact_text(raw) is Some <==> json_output_line(raw) is Some,
        json_compact_text(raw) matches Some(t) ==> json_output_line(raw) matches Some(l) && l.len()
            == t.len() + 1 && l.subrange(0, t.len() as int) == t && l[t.len() as int] == 10u8,
{
    if let Some(t) = json_compact_text(raw) {
        let l = t.push(10u8);
        assert(l.subrange(0, t.len() as int) =~= t);
    }
}

/// A binary message carrying the UTF-8 bytes of a text is valid UTF-8 and
/// reads as that text, so it succeeds exactly when the text message does
/// and gives the same line.
pub proof fn law_binary_message_reads_as_its_text(t: Seq<char>)
    ensures
        valid_utf8(encode_utf8(t)),
        decode_utf8(encode_utf8(t)) == t,
        json_compact_text(decode_utf8(encode_utf8(t))) == json_compact_text(t),
        json_output_line(decode_utf8(encode_utf8(t))) == json_output_line(t),
{
    vstd::utf8::encode_utf8_valid_utf8(t);
    vstd::utf8::encode_utf8_decode_utf8(t);
}

/// The text of each failure.
pub open spec fn stream_error_text(e: StreamError) -> Seq<char> {
    match e {
        StreamError::NonUtf8Binary { script } => "non-utf8 binary WebSocket message for "@ + script@,
        StreamError::InvalidJson(_) => "parsing WebSocket JSON message"@,
        StreamError::ReadFailed { script, .. } => "reading WebSocket for "@ + script@,
    }
}

impl StreamError {
    /// The message shown for this failure.
    pub fn message(&self) -> (r: String)
        ensures
            r@ == stream_error_text(*self),
    {
        match self {
            StreamError::NonUtf8Binary { script } => {
                let mut r = String::from_str("non-utf8 binary WebSocket message for ");
                r.append(script.as_str());
                r
            },
            StreamError::InvalidJson(_) => String::from_str("parsing WebSocket JSON message"),
            StreamError::ReadFailed { script, .. } => {
                let mut r = String::from_str("reading WebSocket for ");
                r.append(script.as_str());
                r
            },
        }
    }
}

} // verus!
