use wakesp::retry::{RetrySender, RetryStep, MAX_TRIES};
use wakesp::udp::{
    after_datagram, after_wake, packet_for_request, listener_step, parse_udp_request, plan_datagram,
    reply_to_datagram, udp_listen_port, wake_address, write_udp_response, AfterReply, DatagramPlan,
    ListenerAction, ListenerEvent, ReplyStep, UdpReply, REBIND_DELAY_MS, RECEIVE_DELAY_MS,
    REPLY_LEN,
};
use wakesp::wol::WolError;

fn framed(message: &str) -> Vec<u8> {
    let mut datagram = message.as_bytes().to_vec();
    datagram.push(b'\n');
    datagram.push(0);
    datagram.resize(128, 0);
    datagram
}

/// Handles one datagram as the listener does, with a stub in place of the
/// socket: returns the replies sent, the packets sent, and whether the
/// listener binds anew.
fn handle(datagram: &[u8], default_mac: &str, send_outcomes: &[bool]) -> (Vec<Vec<u8>>, Vec<[u8; 102]>, bool) {
    let mut replies = Vec::new();
    let mut packets = Vec::new();
    let plan = plan_datagram(datagram);
    let mut step = after_datagram(&plan);
    loop {
        replies.push(reply_to_datagram(step.reply).to_vec());
        match step.then {
            AfterReply::Receive => return (replies, packets, false),
            AfterReply::Rebind => return (replies, packets, true),
            AfterReply::Wake => {
                let mac_addr = match plan {
                    DatagramPlan::Wake { mac_addr } => mac_addr,
                    _ => unreachable!(),
                };
                let sent = match packet_for_request(mac_addr, default_mac) {
                    Err(_) => false,
                    Ok(packet) => {
                        let mut outcomes = send_outcomes.iter();
                        let mut sender = RetrySender::new(MAX_TRIES);
                        while sender.next_step() == RetryStep::Attempt {
                            packets.push(packet);
                            sender.record(*outcomes.next().unwrap());
                        }
                        sender.finish().is_ok()
                    }
                };
                step = after_wake(sent);
            }
        }
    }
}

#[test]
fn a_wake_request_is_acknowledged_and_then_reported() {
    let (replies, packets, rebind) = handle(b"wol,AA:BB:CC:DD:EE:FF", "00:00:00:00:00:00", &[true]);
    assert_eq!(replies, vec![framed("WOL request received"), framed("WOL request submitted")]);
    assert_eq!(packets.len(), 1);
    assert_eq!(&packets[0][6..12], &[0xaa, 0xbb, 0xcc, 0xdd, 0xee, 0xff]);
    assert!(!rebind);
}

#[test]
fn a_wake_request_is_sent_again_after_failures() {
    let (replies, packets, rebind) = handle(b"wol,AA:BB:CC:DD:EE:FF", "", &[false, false, true]);
    assert_eq!(replies, vec![framed("WOL request received"), framed("WOL request submitted")]);
    assert_eq!(packets.len(), 3);
    assert!(!rebind);
}

#[test]
fn a_wake_request_that_cannot_be_sent_is_reported_and_forces_a_rebind() {
    let (replies, packets, rebind) = handle(b"wol,AA:BB:CC:DD:EE:FF", "", &[false, false, false, true]);
    assert_eq!(replies, vec![framed("WOL request received"), framed("Failed to submit packet on target network")]);
    assert_eq!(packets.len(), 3);
    assert!(rebind);
}

#[test]
fn a_wake_request_with_a_bad_address_is_reported_and_forces_a_rebind() {
    let (replies, packets, rebind) = handle(b"wol,AA:BB", "00:11:22:33:44:55", &[true]);
    assert_eq!(replies, vec![framed("WOL request received"), framed("Failed to submit packet on target network")]);
    assert!(packets.is_empty());
    assert!(rebind);
}

#[test]
fn a_wake_request_without_argument_wakes_the_configured_device() {
    for datagram in ["wol", "wol,", "wol,\n", " wol \n"] {
        let (replies, packets, rebind) = handle(datagram.as_bytes(), "00:11:22:33:44:55", &[true]);
        assert_eq!(replies, vec![framed("WOL request received"), framed("WOL request submitted")]);
        assert_eq!(&packets[0][6..12], &[0x00, 0x11, 0x22, 0x33, 0x44, 0x55]);
        assert!(!rebind);
    }
}

#[test]
fn an_unknown_command_is_denied() {
    for datagram in ["ping", "", "WOL,AA:BB:CC:DD:EE:FF", "wol now", ",wol", "wake,AA:BB:CC:DD:EE:FF"] {
        let (replies, packets, rebind) = handle(datagram.as_bytes(), "00:11:22:33:44:55", &[true]);
        assert_eq!(replies, vec![framed("UDP request denied")]);
        assert!(packets.is_empty());
        assert!(!rebind);
    }
}

#[test]
fn a_datagram_that_is_no_text_is_invalid_and_forces_a_rebind() {
    let (replies, packets, rebind) = handle(&[b'w', b'o', b'l', 0xff], "00:11:22:33:44:55", &[true]);
    assert_eq!(replies, vec![framed("Invalid UDP request")]);
    assert!(packets.is_empty());
    assert!(rebind);
}

#[test]
fn a_request_is_a_command_and_an_argument() {
    assert_eq!(parse_udp_request("wol,AA:BB:CC:DD:EE:FF"), ("wol", Some("AA:BB:CC:DD:EE:FF")));
    assert_eq!(parse_udp_request(" wol , AA:BB \r\n"), ("wol", Some("AA:BB")));
    assert_eq!(parse_udp_request("wol,a,b"), ("wol", Some("a")));
    assert_eq!(parse_udp_request("ping"), ("ping", None));
    assert_eq!(parse_udp_request(""), ("", None));
    assert_eq!(parse_udp_request(",x"), ("", Some("x")));
}

#[test]
fn an_empty_or_line_feed_argument_is_no_argument() {
    assert_eq!(parse_udp_request("wol,"), ("wol", None));
    assert_eq!(parse_udp_request("wol,\n"), ("wol", None));
    assert_eq!(parse_udp_request("wol,,x"), ("wol", None));
    assert_eq!(parse_udp_request("wol\n"), ("wol", None));
}

#[test]
fn an_argument_of_other_whitespace_is_kept_as_an_empty_text() {
    assert_eq!(parse_udp_request("wol, "), ("wol", Some("")));
    assert_eq!(parse_udp_request("wol,\r\n"), ("wol", Some("")));
    assert_eq!(parse_udp_request("wol,\n\n"), ("wol", Some("")));
}

#[test]
fn the_named_address_wins_over_the_configured_one() {
    assert_eq!(wake_address(Some("AA:BB:CC:DD:EE:FF"), "00:11:22:33:44:55"), "AA:BB:CC:DD:EE:FF");
    assert_eq!(wake_address(None, "00:11:22:33:44:55"), "00:11:22:33:44:55");
    assert_eq!(packet_for_request(Some(""), "00:11:22:33:44:55"), Err(WolError::InvalidMacFormat));
    assert_eq!(packet_for_request(None, "00:11:22:33:44"), Err(WolError::InvalidMacSize));
    assert_eq!(packet_for_request(Some("00%3A11%3A22%3A33%3A44%3A55"), ""), Err(WolError::InvalidMacFormat));
}

#[test]
fn a_reply_is_framed_in_128_bytes() {
    assert_eq!(REPLY_LEN, 128);
    assert_eq!(write_udp_response(b"WOL request received").to_vec(), framed("WOL request received"));
    assert_eq!(write_udp_response(b"").to_vec(), framed(""));
    let longest = [b'x'; 126];
    let datagram = write_udp_response(&longest);
    assert_eq!(&datagram[..126], &longest[..]);
    assert_eq!(datagram[126], b'\n');
    assert_eq!(datagram[127], 0);
}

#[test]
fn every_reply_has_its_text() {
    assert_eq!(UdpReply::InvalidRequest.message(), "Invalid UDP request");
    assert_eq!(UdpReply::Received.message(), "WOL request received");
    assert_eq!(UdpReply::Submitted.message(), "WOL request submitted");
    assert_eq!(UdpReply::Failed.message(), "Failed to submit packet on target network");
    assert_eq!(UdpReply::Denied.message(), "UDP request denied");
    for reply in [UdpReply::InvalidRequest, UdpReply::Received, UdpReply::Submitted, UdpReply::Failed, UdpReply::Denied] {
        assert_eq!(reply_to_datagram(reply).to_vec(), framed(reply.message()));
    }
}

#[test]
fn the_steps_after_a_reply_are_fixed() {
    assert_eq!(after_wake(true), ReplyStep { reply: UdpReply::Submitted, then: AfterReply::Receive });
    assert_eq!(after_wake(false), ReplyStep { reply: UdpReply::Failed, then: AfterReply::Rebind });
    assert_eq!(
        after_datagram(&DatagramPlan::Wake { mac_addr: None }),
        ReplyStep { reply: UdpReply::Received, then: AfterReply::Wake }
    );
    assert_eq!(RECEIVE_DELAY_MS, 1000);
    assert_eq!(REBIND_DELAY_MS, 1000);
}

#[test]
fn the_listener_binds_then_receives() {
    assert_eq!(listener_step(ListenerEvent::Idle), ListenerAction::WaitForNetwork);
    assert_eq!(listener_step(ListenerEvent::NetworkReady), ListenerAction::Bind);
    assert_eq!(listener_step(ListenerEvent::Bound { ok: true }), ListenerAction::Receive);
    assert_eq!(listener_step(ListenerEvent::Received { ok: true }), ListenerAction::Handle);
}

#[test]
fn a_failed_bind_or_receive_closes_the_socket() {
    assert_eq!(listener_step(ListenerEvent::Bound { ok: false }), ListenerAction::Close);
    assert_eq!(listener_step(ListenerEvent::Received { ok: false }), ListenerAction::Close);
}

#[test]
fn a_handled_datagram_leads_to_the_next_receive_or_to_a_new_bind() {
    assert_eq!(listener_step(ListenerEvent::Handled { rebind: false }), ListenerAction::Receive);
    assert_eq!(listener_step(ListenerEvent::Handled { rebind: true }), ListenerAction::PauseThenClose);
}

#[test]
fn the_listen_port_falls_back_to_9() {
    assert_eq!(udp_listen_port("4000"), 4000);
    assert_eq!(udp_listen_port("65535"), 65535);
    assert_eq!(udp_listen_port("65536"), 9);
    assert_eq!(udp_listen_port(""), 9);
    assert_eq!(udp_listen_port("nine"), 9);
}
