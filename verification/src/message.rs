//! The message dispatcher: the 2-byte little-endian message tag at the
//! front of every buffer, the closed tag enumeration, and the routing of
//! payload bytes to the matching codec.

use vstd::prelude::*;

verus! {

use crate::desc::{spec_read_model_def, ModelDef, ModelDefCodec, ModelDefView};
use crate::error::DecodeError;
use crate::frame::{spec_read_frame, FrameData, FrameDataCodec, FrameDataView};
use crate::wire::{read_u16, spec_u16_at};

/// The closed enumeration of message tags. Any wire value outside the
/// known set maps to `Unrecognized`.
#[derive(Debug, Clone, Copy, PartialEq, Eq, Structural)]
pub enum MessageId {
    Ping,
    PingResponse,
    Request,
    Response,
    RequestModelDef,
    ModelDef,
    RequestFrameData,
    FrameData,
    MessageString,
    Disconnect,
    KeepAlive,
    DisconnectByTimeout,
    EchoRequest,
    EchoResponse,
    Discovery,
    Unrecognized,
}

/// The message id named by a wire tag value.
pub open spec fn spec_message_id_of(v: u16) -> MessageId {
    if v == 0 {
        MessageId::Ping
    } else if v == 1 {
        MessageId::PingResponse
    } else if v == 2 {
        MessageId::Request
    } else if v == 3 {
        MessageId::Response
    } else if v == 4 {
        MessageId::RequestModelDef
    } else if v == 5 {
        MessageId::ModelDef
    } else if v == 6 {
        MessageId::RequestFrameData
    } else if v == 7 {
        MessageId::FrameData
    } else if v == 8 {
        MessageId::MessageString
    } else if v == 9 {
        MessageId::Disconnect
    } else if v == 10 {
        MessageId::KeepAlive
    } else if v == 11 {
        MessageId::DisconnectByTimeout
    } else if v == 12 {
        MessageId::EchoRequest
    } else if v == 13 {
        MessageId::EchoResponse
    } else if v == 14 {
        MessageId::Discovery
    } else {
        MessageId::Unrecognized
    }
}

impl core::convert::From<u16> for MessageId {
    fn from(value: u16) -> (r: Self) {
        if value == 0 {
            MessageId::Ping
        } else if value == 1 {
            MessageId::PingResponse
        } else if value == 2 {
            MessageId::Request
        } else if value == 3 {
            MessageId::Response
        } else if value == 4 {
            MessageId::RequestModelDef
        } else if value == 5 {
            MessageId::ModelDef
        } else if value == 6 {
            MessageId::RequestFrameData
        } else if value == 7 {
            MessageId::FrameData
        } else if value == 8 {
            MessageId::MessageString
        } else if value == 9 {
            MessageId::Disconnect
        } else if value == 10 {
            MessageId::KeepAlive
        } else if value == 11 {
            MessageId::DisconnectByTimeout
        } else if value == 12 {
            MessageId::EchoRequest
        } else if value == 13 {
            MessageId::EchoResponse
        } else if value == 14 {
            MessageId::Discovery
        } else {
            MessageId::Unrecognized
        }
    }
}

impl vstd::std_specs::convert::FromSpecImpl<u16> for MessageId {
    open spec fn obeys_from_spec() -> bool {
        true
    }

    open spec fn from_spec(v: u16) -> MessageId {
        spec_message_id_of(v)
    }
}

/// A decoded top-level message: exactly one variant is active.
#[derive(Debug, PartialEq)]
pub enum Message {
    PingResponse,
    FrameData(Box<FrameData>),
    ModelDef(Box<ModelDef>),
    Unknown,
}

pub ghost enum MessageView {
    PingResponse,
    FrameData(FrameDataView),
    ModelDef(ModelDefView),
    Unknown,
}

impl DeepView for Message {
    type V = MessageView;

    open spec fn deep_view(&self) -> MessageView {
        match self {
            Message::PingResponse => MessageView::PingResponse,
            Message::FrameData(fd) => MessageView::FrameData(fd.deep_view()),
            Message::ModelDef(md) => MessageView::ModelDef(md.deep_view()),
            Message::Unknown => MessageView::Unknown,
        }
    }
}

/// What a whole message buffer decodes to. A buffer shorter than the
/// 2-byte tag underflows; a ping response carries no payload; frame-data
/// and model-definition tags route the remaining bytes to their codecs;
/// every other recognized tag is an unsupported message type, returned as
/// data with its raw tag; a tag outside the known set is an unknown
/// message.
pub open spec fn spec_decode_message(b: Seq<u8>) -> Result<MessageView, DecodeError> {
    if b.len() < 2 {
        Err(DecodeError::Underflow)
    } else {
        let tag = spec_u16_at(b, 0);
        match spec_message_id_of(tag) {
            MessageId::PingResponse => Ok(MessageView::PingResponse),
            MessageId::FrameData => match spec_read_frame(b, 2) {
                Ok((fd, _)) => Ok(MessageView::FrameData(fd)),
                Err(e) => Err(e),
            },
            MessageId::ModelDef => match spec_read_model_def(b, 2) {
                Ok((md, _)) => Ok(MessageView::ModelDef(md)),
                Err(e) => Err(e),
            },
            MessageId::Unrecognized => Ok(MessageView::Unknown),
            _ => Err(DecodeError::UnsupportedMessageType(tag)),
        }
    }
}

impl Message {
    /// Decodes one whole message buffer: reads the tag, routes the rest.
    /// Never panics; a 1-byte buffer is an underflow, and a recognized tag
    /// without a decode path comes back as an unsupported-message-type
    /// error carrying the raw tag.
    pub fn from_bytes(src: &Vec<u8>) -> (r: Result<Message, DecodeError>)
        ensures
            (match (r, spec_decode_message(src@)) {
                (Ok(m), Ok(sv)) => m.deep_view() == sv,
                (Err(e), Err(se)) => e == se,
                _ => false,
            }),
            src@.len() < 2 ==> r == Err::<Message, DecodeError>(DecodeError::Underflow),
    {
        let (tag, p) = match read_u16(src, 0) {
            Ok(v) => v,
            Err(e) => { return Err(e) },
        };
        let id = MessageId::from(tag);
        match id {
            MessageId::PingResponse => Ok(Message::PingResponse),
            MessageId::FrameData => {
                let codec = FrameDataCodec;
                match codec.decode(src, p) {
                    Ok((fd, _)) => Ok(Message::FrameData(Box::new(fd))),
                    Err(e) => Err(e),
                }
            },
            MessageId::ModelDef => {
                let codec = ModelDefCodec;
                match codec.decode(src, p) {
                    Ok((md, _)) => Ok(Message::ModelDef(Box::new(md))),
                    Err(e) => Err(e),
                }
            },
            MessageId::Unrecognized => Ok(Message::Unknown),
            _ => Err(DecodeError::UnsupportedMessageType(tag)),
        }
    }
}

} // verus!
