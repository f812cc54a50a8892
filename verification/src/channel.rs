//! The two ends of the proxy and the routing rules of a message channel:
//! which frames it takes, when it waits for a reply, and which faults end
//! the proxy.

use vstd::prelude::*;
use crate::text::{decimal_string, spec_decimal};

verus! {

/// The side of the proxy that a message comes from.
#[derive(Debug, Clone, Copy, PartialEq, Eq, Structural)]
pub enum Remote {
    Client,
    Server,
}

/// How a side is named in messages.
pub open spec fn spec_remote_name(r: Remote) -> Seq<char> {
    match r {
        Remote::Client => "client"@,
        Remote::Server => "server"@,
    }
}

impl Remote {
    /// How the side is named in messages: `client` or `server`.
    pub fn to_string(&self) -> (name: String)
        ensures
            name@ == spec_remote_name(*self),
    {
        match self {
            Remote::Client => String::from_str("client"),
            Remote::Server => String::from_str("server"),
        }
    }
}

/// A handler registered for one message type: frames of that type are sent
/// to it through `sender`, and when it has a `receiver`, its reply replaces
/// the frame.
pub struct MessageChannel<S, R> {
    pub message_type: u8,
    pub expect_from: Remote,
    pub receiver: Option<R>,
    pub sender: S,
}

/// What happened while a channel handled a frame.
#[derive(Debug, Clone, Copy, PartialEq, Eq, Structural)]
pub enum ChannelEvent {
    /// A frame holding a message of this type arrived.
    Message(u8),
    /// Sending the message to the handler succeeded (`true`) or failed.
    Sent(bool),
    /// Receiving the handler's reply succeeded (`true`) or failed.
    Received(bool),
}

/// What a channel does next.
#[derive(Debug, Clone, Copy, PartialEq, Eq, Structural)]
pub enum ChannelAction {
    /// Leave the frame alone: nothing replaces it.
    Pass,
    /// Send the message to the handler.
    Forward,
    /// Wait for the handler's reply.
    AwaitReply,
    /// Put the handler's reply in place of the frame.
    Reply,
    /// Stop the proxy.
    Abort(ChannelFault),
}

/// Why a channel stops the proxy.
#[derive(Debug, Clone, Copy, PartialEq, Eq, Structural)]
pub enum ChannelFault {
    SendFailed,
    ReceiveFailed,
}

/// The channel's rule: a message of its type goes to the handler; once sent,
/// the channel waits for a reply only when it has a receiver; a failed send
/// or receive stops the proxy.
pub open spec fn spec_channel_step(message_type: u8, replies: bool, event: ChannelEvent) -> ChannelAction {
    match event {
        ChannelEvent::Message(mt) => if mt == message_type {
            ChannelAction::Forward
        } else {
            ChannelAction::Pass
        },
        ChannelEvent::Sent(ok) => if !ok {
            ChannelAction::Abort(ChannelFault::SendFailed)
        } else if replies {
            ChannelAction::AwaitReply
        } else {
            ChannelAction::Pass
        },
        ChannelEvent::Received(ok) => if ok {
            ChannelAction::Reply
        } else {
            ChannelAction::Abort(ChannelFault::ReceiveFailed)
        },
    }
}

impl<S, R> MessageChannel<S, R> {
    /// What the channel does after `event`, in its handling of one frame.
    pub fn on_message_step(&self, event: ChannelEvent) -> (action: ChannelAction)
        ensures
            action == spec_channel_step(self.message_type, self.receiver is Some, event),
    {
        match event {
            ChannelEvent::Message(mt) => if mt == self.message_type {
                ChannelAction::Forward
            } else {
                ChannelAction::Pass
            },
            ChannelEvent::Sent(ok) => if !ok {
                ChannelAction::Abort(ChannelFault::SendFailed)
            } else if self.receiver.is_some() {
                ChannelAction::AwaitReply
            } else {
                ChannelAction::Pass
            },
            ChannelEvent::Received(ok) => if ok {
                ChannelAction::Reply
            } else {
                ChannelAction::Abort(ChannelFault::ReceiveFailed)
            },
        }
    }
}

/// A channel hands a frame to its handler only when the frame's message is
/// of the channel's type; after a successful send it waits for a reply
/// exactly when it has a receiver, and without one leaves the frame alone;
/// a reply replaces the frame only when it was received; a failed send or
/// receive stops the proxy, naming which of the two failed.
pub proof fn lemma_channel_routing(message_type: u8, replies: bool, mt: u8, ok: bool)
    ensures
        spec_channel_step(message_type, replies, ChannelEvent::Message(mt)) == (if mt
            == message_type {
            ChannelAction::Forward
        } else {
            ChannelAction::Pass
        }),
        spec_channel_step(message_type, replies, ChannelEvent::Sent(ok)) == (if !ok {
            ChannelAction::Abort(ChannelFault::SendFailed)
        } else if replies {
            ChannelAction::AwaitReply
        } else {
            ChannelAction::Pass
        }),
        (spec_channel_step(message_type, replies, ChannelEvent::Received(ok)) == ChannelAction::Reply)
            <==> ok,
        !ok ==> spec_channel_step(message_type, replies, ChannelEvent::Received(ok))
            == ChannelAction::Abort(ChannelFault::ReceiveFailed),
{
}

/// The text with which a channel fault stops the proxy, for a message of
/// type `message_type`.
pub open spec fn spec_channel_fault_message(fault: ChannelFault, message_type: u8) -> Seq<char> {
    match fault {
        ChannelFault::SendFailed => "Impossible to send message to message handler, for: "@
            + spec_decimal(message_type as nat),
        ChannelFault::ReceiveFailed => "Impossible to receive message from message handler, for: "@
            + spec_decimal(message_type as nat),
    }
}

impl ChannelFault {
    /// The text with which the fault stops the proxy.
    pub fn message(&self, message_type: u8) -> (text: String)
        ensures
            text@ == spec_channel_fault_message(*self, message_type),
    {
        let mut text = match self {
            ChannelFault::SendFailed => String::from_str(
                "Impossible to send message to message handler, for: ",
            ),
            ChannelFault::ReceiveFailed => String::from_str(
                "Impossible to receive message from message handler, for: ",
            ),
        };
        let number = decimal_string(message_type as u64);
        text.append(number.as_str());
        text
    }
}

/// What a channel sees of a frame before it reads the message in it.
#[derive(Debug, Clone, Copy, PartialEq, Eq, Structural)]
pub enum FrameShape {
    /// A handshake frame.
    HandShake,
    /// An SV2 frame: the message type of its header, if it has a header, and
    /// whether its payload reads as a message of that type.
    Sv2 { header_type: Option<u8>, payload_parses: bool },
}

/// Why a frame cannot be handled.
#[derive(Debug, Clone, Copy, PartialEq, Eq, Structural)]
pub enum FrameFault {
    UnexpectedHandshake,
    InvalidHeader,
    InvalidPayload,
}

/// The message type of a well-formed SV2 frame; every other frame is a fault.
pub open spec fn spec_frame_message_type(shape: FrameShape) -> Result<u8, FrameFault> {
    match shape {
        FrameShape::HandShake => Err(FrameFault::UnexpectedHandshake),
        FrameShape::Sv2 { header_type: None, .. } => Err(FrameFault::InvalidHeader),
        FrameShape::Sv2 { header_type: Some(mt), payload_parses } => if payload_parses {
            Ok(mt)
        } else {
            Err(FrameFault::InvalidPayload)
        },
    }
}

/// A frame is handled exactly when it is an SV2 frame whose header gives a
/// message type and whose payload reads as that message; the type handled
/// is the header's.
pub proof fn lemma_frame_accepted(shape: FrameShape)
    ensures
        spec_frame_message_type(shape) is Ok <==> (shape matches FrameShape::Sv2 {
            header_type: Some(_),
            payload_parses: true,
        }),
        spec_frame_message_type(shape) matches Ok(mt) ==> shape == (FrameShape::Sv2 {
            header_type: Some(mt),
            payload_parses: true,
        }),
        shape is HandShake ==> spec_frame_message_type(shape) == Err::<u8, FrameFault>(
            FrameFault::UnexpectedHandshake,
        ),
{
}

/// Reads the message type of a frame, or says why the frame is refused.
pub fn frame_message_type(shape: FrameShape) -> (mt: Result<u8, FrameFault>)
    ensures
        mt == spec_frame_message_type(shape),
{
    match shape {
        FrameShape::HandShake => Err(FrameFault::UnexpectedHandshake),
        FrameShape::Sv2 { header_type: None, .. } => Err(FrameFault::InvalidHeader),
        FrameShape::Sv2 { header_type: Some(mt), payload_parses } => if payload_parses {
            Ok(mt)
        } else {
            Err(FrameFault::InvalidPayload)
        },
    }
}

/// The text with which a refused frame stops the proxy, where `frame` is the
/// frame's debug text and `from` the side it came from.
pub open spec fn spec_frame_fault_message(fault: FrameFault, frame: Seq<char>, from: Remote) -> Seq<
    char,
> {
    let what = match fault {
        FrameFault::UnexpectedHandshake => "Received unexpected handshake frame: "@,
        FrameFault::InvalidHeader => "Received frame with invalid header: "@,
        FrameFault::InvalidPayload => "Received frame with invalid payload or message type: "@,
    };
    what + frame + ", from: "@ + spec_remote_name(from)
}

impl FrameFault {
    /// The text with which the refused frame stops the proxy.
    pub fn message(&self, frame: &str, from: Remote) -> (text: String)
        ensures
            text@ == spec_frame_fault_message(*self, frame@, from),
    {
        let mut text = match self {
            FrameFault::UnexpectedHandshake => String::from_str("Received unexpected handshake frame: "),
            FrameFault::InvalidHeader => String::from_str("Received frame with invalid header: "),
            FrameFault::InvalidPayload => String::from_str(
                "Received frame with invalid payload or message type: ",
            ),
        };
        text.append(frame);
        text.append(", from: ");
        let name = from.to_string();
        text.append(name.as_str());
        text
    }
}

} // verus!
