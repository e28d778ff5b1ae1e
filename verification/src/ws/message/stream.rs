use vstd::prelude::*;

use super::{
    decode_spec, encode_spec, Message, MessageView, ParseMessageError, ParseMessageErrorView,
};

verus! {

/// Error when read/write message stream/sink
#[derive(Debug)]
pub enum MessageStreamSinkError {
    /// underlying websocket stream broken
    Websocket {
        /// what the socket reported
        reason: String,
    },
    /// received an non-binary frame
    NotBinaryFrame,
    /// parse binary message data failed
    ParseMessageFailed {
        /// source error
        source: ParseMessageError,
    },
}

impl MessageStreamSinkError {
    /// Whether this error ends the stream: a broken socket does, a frame
    /// that is not binary does not, and a frame that cannot be parsed does
    /// unless only its type is unknown.
    pub open spec fn spec_is_fatal(&self) -> bool {
        match self {
            MessageStreamSinkError::Websocket { .. } => true,
            MessageStreamSinkError::NotBinaryFrame => false,
            MessageStreamSinkError::ParseMessageFailed { source } => !(source is UnknownMessageType),
        }
    }

    /// Check if this error will make the stream/sink stop
    #[verifier::when_used_as_spec(spec_is_fatal)]
    pub fn is_fatal(&self) -> (fatal: bool)
        ensures
            fatal == self.spec_is_fatal(),
    {
        match self {
            Self::Websocket { .. } => true,
            Self::NotBinaryFrame => false,
            Self::ParseMessageFailed { source } => !source.is_unknown_type(),
        }
    }
}

/// A frame as the socket hands it over.
#[derive(Debug)]
pub enum WebsocketFrame {
    /// a binary frame and its payload
    Binary(Vec<u8>),
    /// a text, ping, pong or close frame
    Other,
}

/// What the socket gave when it was asked for the next frame.
pub type Received = Result<WebsocketFrame, String>;

/// Kaiheila websocket message stream/sink: turns the socket's frames into
/// messages and messages into frames.
#[derive(Debug, Clone, Copy)]
pub struct MessageStreamSink {
    compress: bool,
}

/// Whether `item` is what a link that compresses or not makes of what the
/// socket gave: a socket error stays one, a frame that is not binary is
/// refused, and a binary frame is decoded.
pub open spec fn received_as(
    received: Received,
    compress: bool,
    item: Result<Message, MessageStreamSinkError>,
) -> bool {
    match received {
        Err(reason) => item == Err::<Message, MessageStreamSinkError>(
            MessageStreamSinkError::Websocket { reason },
        ),
        Ok(WebsocketFrame::Other) => item == Err::<Message, MessageStreamSinkError>(
            MessageStreamSinkError::NotBinaryFrame,
        ),
        Ok(WebsocketFrame::Binary(data)) => match item {
            Ok(message) => decode_spec(data@, compress) == Ok::<
                MessageView,
                ParseMessageErrorView,
            >(message@),
            Err(MessageStreamSinkError::ParseMessageFailed { source }) => decode_spec(
                data@,
                compress,
            ) == Err::<MessageView, ParseMessageErrorView>(source@),
            Err(_) => false,
        },
    }
}

impl MessageStreamSink {
    /// Whether the link compresses what the server sends.
    pub closed spec fn compressed(&self) -> bool {
        self.compress
    }

    /// Construct a new stream.
    ///
    /// the `compress` argument controls if the stream will decompress binary data
    /// before parse it to message.
    pub fn new(compress: bool) -> (sink: Self)
        ensures
            sink.compressed() == compress,
    {
        Self { compress }
    }

    /// The stream's next item, made of what the socket gave.
    pub fn poll_next(&self, received: Received) -> (item: Result<Message, MessageStreamSinkError>)
        ensures
            received_as(received, self.compressed(), item),
    {
        match received {
            Err(reason) => Err(MessageStreamSinkError::Websocket { reason }),
            Ok(WebsocketFrame::Binary(data)) => {
                match Message::decode(data, self.compress) {
                    Ok(msg) => Ok(msg),
                    Err(e) => Err(MessageStreamSinkError::ParseMessageFailed { source: e }),
                }
            },
            Ok(WebsocketFrame::Other) => Err(MessageStreamSinkError::NotBinaryFrame),
        }
    }

    /// The frame that carries `item` to the server.
    pub fn start_send(&self, item: &Message) -> (frame: WebsocketFrame)
        ensures
            frame matches WebsocketFrame::Binary(data) && data@ == encode_spec(item@),
    {
        WebsocketFrame::Binary(item.encode())
    }
}

} // verus!
