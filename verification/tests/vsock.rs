use kata_runtime::vsock::{
    set_nonblocking_flags, Error, HybridStream, NotSupported, ReadSource, StreamVsock, WriteTarget,
    MAX_CONNECTIONS, MUXER_KILLQ_SIZE, MUXER_RXQ_SIZE,
};
use kata_runtime::vsock_forward::{
    bridge, guest_cid_from_agent_url, guest_cid_from_parts, run_dial_loop, BridgeAction,
    BridgeEvent, DialAction, DialEvent, ForwardError, DIAL_RETRY_SECS,
};

type Stream = StreamVsock<Vec<u8>, String>;

#[test]
fn the_first_write_to_a_handed_over_file_is_the_reply() {
    let mut stream: Stream = StreamVsock::HybridStream(HybridStream {
        hybrid_stream: Vec::new(),
        slave_stream: Some(String::from("reply")),
    });
    match stream.write_target() {
        WriteTarget::Reply(socket) => assert_eq!(socket, "reply"),
        other => panic!("{other:?}"),
    }
    match stream.write_target() {
        WriteTarget::File(file) => file.extend_from_slice(b"data"),
        other => panic!("{other:?}"),
    }
    match &stream {
        StreamVsock::HybridStream(h) => {
            assert_eq!(h.hybrid_stream, b"data");
            assert!(h.slave_stream.is_none());
        }
        other => panic!("{other:?}"),
    }
    assert_eq!(stream.socket(), Err(NotSupported));
}

#[test]
fn a_socket_is_written_and_read_itself() {
    let mut stream: Stream = StreamVsock::UnixStream(String::new());
    match stream.write_target() {
        WriteTarget::Socket(socket) => socket.push('x'),
        other => panic!("{other:?}"),
    }
    match stream.read_source() {
        ReadSource::Socket(socket) => assert_eq!(socket, "x"),
        other => panic!("{other:?}"),
    }
    assert_eq!(stream.socket().unwrap(), "x");
    let mut file: Stream = StreamVsock::HybridStream(HybridStream { hybrid_stream: vec![1], slave_stream: None });
    match file.read_source() {
        ReadSource::File(data) => assert_eq!(*data, vec![1]),
        other => panic!("{other:?}"),
    }
}

#[test]
fn only_the_blocking_flag_changes() {
    let nonblock = 0o4000;
    assert_eq!(set_nonblocking_flags(0o102, nonblock, true), 0o4102);
    assert_eq!(set_nonblocking_flags(0o4102, nonblock, true), 0o4102);
    assert_eq!(set_nonblocking_flags(0o4102, nonblock, false), 0o102);
    assert_eq!(set_nonblocking_flags(-1, nonblock, false), -1 & !nonblock);
}

#[test]
fn errors_of_the_host_side() {
    assert_eq!(Error::TooManyConnections.message(), "Muxer connection limit reached");
    assert_eq!(Error::ConvertFromUtf8.message(), "Error converting from UTF-8");
    assert_eq!(
        Error::ReadStreamPort(Box::new(Error::ParseInteger)).message(),
        "Error reading stream port"
    );
    assert_eq!(Error::UnixBind.message(), "Error binding to the host-side Unix socket");
    assert_eq!((MAX_CONNECTIONS, MUXER_RXQ_SIZE, MUXER_KILLQ_SIZE), (1023, 256, 128));
}

#[test]
fn guest_cid_comes_from_the_agents_url() {
    assert_eq!(guest_cid_from_agent_url("vsock://3:1024"), Ok(3));
    assert_eq!(guest_cid_from_agent_url("VSOCK://4294967295:1"), Ok(u32::MAX));
    assert_eq!(guest_cid_from_agent_url("vsock://4294967296:1"), Err(ForwardError::InvalidGuestCid));
    assert_eq!(guest_cid_from_agent_url("hvsock:///run/ch-vm.sock"), Err(ForwardError::WrongScheme));
    assert_eq!(guest_cid_from_agent_url("vsock:3"), Err(ForwardError::NoGuestCid));
    assert_eq!(guest_cid_from_agent_url("not a url"), Err(ForwardError::InvalidUrl));
}

#[test]
fn guest_cid_from_the_parts_of_a_url() {
    assert_eq!(guest_cid_from_parts("vsock", &Some(String::from("42"))), Ok(42));
    assert_eq!(guest_cid_from_parts("vsock", &Some(String::from("x"))), Err(ForwardError::InvalidGuestCid));
    assert_eq!(guest_cid_from_parts("vsock", &None), Err(ForwardError::NoGuestCid));
    assert_eq!(guest_cid_from_parts("unix", &None), Err(ForwardError::WrongScheme));
    assert_eq!(ForwardError::NoGuestCid.message(), "cannot parse guest CID from agent URL");
}

#[test]
fn dialling_goes_on_until_shutdown() {
    assert_eq!(run_dial_loop(DialEvent::Round(false)), DialAction::Dial);
    assert_eq!(run_dial_loop(DialEvent::Dialled(false)), DialAction::Wait);
    assert_eq!(run_dial_loop(DialEvent::Dialled(true)), DialAction::Bridge);
    assert_eq!(run_dial_loop(DialEvent::BridgeEnded), DialAction::Wait);
    assert_eq!(run_dial_loop(DialEvent::Waited(false)), DialAction::Again);
    assert_eq!(run_dial_loop(DialEvent::Waited(true)), DialAction::Stop);
    assert_eq!(run_dial_loop(DialEvent::Round(true)), DialAction::Stop);
    assert_eq!(DIAL_RETRY_SECS, 2);
}

#[test]
fn a_bridge_waits_for_the_first_byte() {
    assert_eq!(bridge(BridgeEvent::FirstRead(Some(1))), BridgeAction::DialUnix);
    assert_eq!(bridge(BridgeEvent::FirstRead(Some(0))), BridgeAction::End);
    assert_eq!(bridge(BridgeEvent::FirstRead(None)), BridgeAction::End);
    assert_eq!(bridge(BridgeEvent::UnixDialled(true)), BridgeAction::WriteFirst);
    assert_eq!(bridge(BridgeEvent::UnixDialled(false)), BridgeAction::End);
    assert_eq!(bridge(BridgeEvent::FirstWritten(true)), BridgeAction::Copy);
    assert_eq!(bridge(BridgeEvent::FirstWritten(false)), BridgeAction::Fail);
    assert_eq!(bridge(BridgeEvent::CopyEnded), BridgeAction::End);
}
