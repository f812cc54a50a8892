use sv2_custom_proxy::channel::{
    frame_message_type, ChannelAction, ChannelEvent, ChannelFault, FrameFault, FrameShape,
    MessageChannel, Remote,
};
use sv2_custom_proxy::setup::{ConnectRetry, ConnectStep, Interceptor, ProxyType};

fn channel(with_receiver: bool) -> MessageChannel<(), ()> {
    MessageChannel {
        message_type: 0x22,
        expect_from: Remote::Server,
        receiver: if with_receiver { Some(()) } else { None },
        sender: (),
    }
}

#[test]
fn remote_names() {
    assert_eq!(Remote::Client.to_string(), "client");
    assert_eq!(Remote::Server.to_string(), "server");
}

#[test]
fn channel_forwards_only_its_type() {
    let c = channel(true);
    assert_eq!(c.on_message_step(ChannelEvent::Message(0x22)), ChannelAction::Forward);
    assert_eq!(c.on_message_step(ChannelEvent::Message(0x23)), ChannelAction::Pass);
}

#[test]
fn channel_waits_for_reply_only_with_receiver() {
    assert_eq!(channel(true).on_message_step(ChannelEvent::Sent(true)), ChannelAction::AwaitReply);
    assert_eq!(channel(false).on_message_step(ChannelEvent::Sent(true)), ChannelAction::Pass);
    assert_eq!(channel(true).on_message_step(ChannelEvent::Received(true)), ChannelAction::Reply);
}

#[test]
fn channel_faults() {
    assert_eq!(
        channel(false).on_message_step(ChannelEvent::Sent(false)),
        ChannelAction::Abort(ChannelFault::SendFailed)
    );
    assert_eq!(
        channel(true).on_message_step(ChannelEvent::Received(false)),
        ChannelAction::Abort(ChannelFault::ReceiveFailed)
    );
    assert_eq!(
        ChannelFault::SendFailed.message(34),
        "Impossible to send message to message handler, for: 34"
    );
    assert_eq!(
        ChannelFault::ReceiveFailed.message(0),
        "Impossible to receive message from message handler, for: 0"
    );
}

#[test]
fn frame_checks() {
    assert_eq!(frame_message_type(FrameShape::HandShake), Err(FrameFault::UnexpectedHandshake));
    assert_eq!(
        frame_message_type(FrameShape::Sv2 { header_type: None, payload_parses: true }),
        Err(FrameFault::InvalidHeader)
    );
    assert_eq!(
        frame_message_type(FrameShape::Sv2 { header_type: Some(7), payload_parses: false }),
        Err(FrameFault::InvalidPayload)
    );
    assert_eq!(
        frame_message_type(FrameShape::Sv2 { header_type: Some(7), payload_parses: true }),
        Ok(7)
    );
    assert_eq!(
        FrameFault::InvalidHeader.message("F", Remote::Client),
        "Received frame with invalid header: F, from: client"
    );
    assert_eq!(
        FrameFault::UnexpectedHandshake.message("H", Remote::Server),
        "Received unexpected handshake frame: H, from: server"
    );
    assert_eq!(
        FrameFault::InvalidPayload.message("P", Remote::Server),
        "Received frame with invalid payload or message type: P, from: server"
    );
}

#[test]
fn proxy_type_names() {
    assert_eq!(ProxyType::from_name("tp-jdc"), Some(ProxyType::TpJdc));
    assert_eq!(ProxyType::from_name("tp-pool"), Some(ProxyType::TpPool));
    assert_eq!(ProxyType::from_name("pool-translator"), Some(ProxyType::PoolTranslator));
    assert_eq!(ProxyType::from_name("jdc-translator"), Some(ProxyType::JdcTranslator));
    assert_eq!(ProxyType::from_name("pool"), None);
}

#[test]
fn interceptors_per_role() {
    assert_eq!(
        ProxyType::TpPool.interceptors(),
        vec![
            Interceptor::PrevHash,
            Interceptor::SubmitSolution,
            Interceptor::NewTemplate,
            Interceptor::SetupConnectionError,
            Interceptor::Reconnect,
        ]
    );
    assert_eq!(ProxyType::TpJdc.interceptors().len(), 11);
    assert_eq!(ProxyType::PoolTranslator.interceptors(), ProxyType::JdcTranslator.interceptors());
    assert_eq!(ProxyType::PoolTranslator.interceptors().len(), 13);
}

#[test]
fn interceptor_sides() {
    assert_eq!(Interceptor::SubmitShareExtended.remote(), Remote::Client);
    assert_eq!(Interceptor::SubmitSolution.remote(), Remote::Client);
    assert_eq!(Interceptor::UpdateChannel.remote(), Remote::Client);
    assert_eq!(Interceptor::PrevHash.remote(), Remote::Server);
    assert_eq!(Interceptor::SetTarget.remote(), Remote::Server);
}

#[test]
fn connect_gives_up_on_tenth_failure() {
    let mut r = ConnectRetry::new();
    for _ in 0..9 {
        assert_eq!(r.record_failure(), ConnectStep::RetryAfterSecs(2));
    }
    assert_eq!(r.record_failure(), ConnectStep::GiveUp);
    assert_eq!(r.failures, 10);
}
