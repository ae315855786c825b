//! Market-data stream policy: what the streaming loop does with each
//! frame the websocket delivers.
//!
//! The socket itself (connect, authenticate, subscribe, read) is I/O and
//! stays outside the library; the decision the read loop takes on every
//! frame — deliver, answer, ignore or stop — is fixed here.

use vstd::prelude::*;

verus! {

/// One frame as the streaming loop sees it.
pub enum StreamFrame {
    /// A text frame carrying market data.
    Text(String),
    /// A binary frame; the feed never uses them.
    Binary,
    /// A keep-alive probe carrying a payload to echo.
    Ping(Vec<u8>),
    /// The answer to a probe of ours.
    Pong,
    /// The server closed the stream.
    Close,
    /// A raw protocol frame surfaced by the transport.
    Raw,
    /// The transport reported an error.
    TransportError,
}

/// What the streaming loop does with a frame.
pub enum StreamAction {
    /// Parse the text and forward what it carries to the pipeline.
    Deliver(String),
    /// Answer the keep-alive probe with this payload.
    AnswerPing(Vec<u8>),
    /// Read on without doing anything.
    Ignore,
    /// Leave the read loop.
    Stop,
}

/// The read loop's policy, one frame at a time: text is delivered, pings
/// are answered with their own payload, binary and protocol frames are
/// ignored, and a close or a transport error ends the stream.
pub fn stream_step(frame: StreamFrame) -> (r: StreamAction)
    ensures
        match frame {
            StreamFrame::Text(text) => r matches StreamAction::Deliver(t) && t == text,
            StreamFrame::Binary => r is Ignore,
            StreamFrame::Ping(data) => r matches StreamAction::AnswerPing(d) && d == data,
            StreamFrame::Pong => r is Ignore,
            StreamFrame::Close => r is Stop,
            StreamFrame::Raw => r is Ignore,
            StreamFrame::TransportError => r is Stop,
        },
{
    match frame {
        StreamFrame::Text(text) => StreamAction::Deliver(text),
        StreamFrame::Binary => StreamAction::Ignore,
        StreamFrame::Ping(data) => StreamAction::AnswerPing(data),
        StreamFrame::Pong => StreamAction::Ignore,
        StreamFrame::Close => StreamAction::Stop,
        StreamFrame::Raw => StreamAction::Ignore,
        StreamFrame::TransportError => StreamAction::Stop,
    }
}

} // verus!
