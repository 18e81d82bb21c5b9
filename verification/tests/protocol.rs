use protonvpn_rs::{
    client::{openvpn::Protocol, Pid},
    protocol::{split_message, DecodeErrorKind, Request, Response, ServerStatus, SocketProtocol},
};

#[test]
fn test_request_deserialize() {
    let request = Request::deserialize("status").unwrap();
    assert_eq!(request, Request::Status);

    let request = Request::deserialize("disconnect").unwrap();
    assert_eq!(request, Request::Disconnect);

    let request = Request::deserialize("connect:server1:udp").unwrap();
    assert_eq!(request, Request::Connect("server1".into(), Protocol::Udp));

    assert!(Request::deserialize("connect:server1").is_err());

    assert!(Request::deserialize("unknown:command").is_err());
}

#[test]
fn test_request_serialize() {
    let request = Request::Status;
    assert_eq!(request.serialize(), b"status".to_vec());

    let request = Request::Disconnect;
    assert_eq!(request.serialize(), b"disconnect".to_vec());

    let request = Request::Connect("server1".into(), Protocol::Udp);
    assert_eq!(request.serialize(), b"connect:server1:udp".to_vec());
}

#[test]
fn test_response_deserialize() {
    let response = Response::deserialize("status:disconnected").unwrap();
    assert!(matches!(
        response,
        Response::Status(ServerStatus::Disconnected)
    ));

    let response = Response::deserialize("status:connected:1234:server1:udp").unwrap();
    if let Response::Status(ServerStatus::Connected {
        pid,
        name,
        protocol,
    }) = response
    {
        assert_eq!(pid.to_string(), "1234");
        assert_eq!(name, "server1");
        assert_eq!(protocol, Protocol::Udp);
    } else {
        panic!("Expected connected status");
    }

    assert!(Response::deserialize("status:invalid:command").is_err());

    assert!(Response::deserialize("unknown:command").is_err());
}

#[test]
fn test_response_serialize() {
    let response = Response::Status(ServerStatus::Disconnected);
    assert_eq!(response.serialize(), b"status:disconnected".to_vec());

    let pid = Pid::try_from("1234".to_string()).unwrap();
    let response = Response::Status(ServerStatus::Connected {
        pid,
        name: "server1".into(),
        protocol: Protocol::Udp,
    });
    assert_eq!(
        response.serialize(),
        b"status:connected:1234:server1:udp".to_vec()
    );
}

fn decode_encode(request: Request) -> Request {
    let bytes = request.serialize();
    let text = String::from_utf8(bytes).unwrap();
    Request::deserialize(&text).unwrap()
}

#[test]
fn request_round_trip_every_variant() {
    assert_eq!(decode_encode(Request::Status), Request::Status);
    assert_eq!(decode_encode(Request::Disconnect), Request::Disconnect);
    assert_eq!(decode_encode(Request::Killswitch(true)), Request::Killswitch(true));
    assert_eq!(decode_encode(Request::Killswitch(false)), Request::Killswitch(false));
    for id in ["server1", "", "NL#1", "a b", "ünï-çødé"] {
        for protocol in [Protocol::Udp, Protocol::Tcp] {
            let request = Request::Connect(id.to_string(), protocol);
            assert_eq!(decode_encode(request), Request::Connect(id.to_string(), protocol));
        }
    }
}

#[test]
fn request_with_colon_in_identifier_does_not_round_trip() {
    let bytes = Request::Connect("a:b".into(), Protocol::Udp).serialize();
    assert_eq!(bytes, b"connect:a:b:udp".to_vec());
    let error = Request::deserialize("connect:a:b:udp").unwrap_err();
    assert_eq!(error.kind, DecodeErrorKind::IncorrectArguments);
}

#[test]
fn response_round_trip() {
    for pid in [0u32, 7, 1234, u32::MAX] {
        for protocol in [Protocol::Udp, Protocol::Tcp] {
            let response = Response::Status(ServerStatus::Connected {
                pid: Pid::from(pid),
                name: "NL-FREE#12".into(),
                protocol,
            });
            let text = String::from_utf8(response.serialize()).unwrap();
            match Response::deserialize(&text).unwrap() {
                Response::Status(ServerStatus::Connected { pid: p, name, protocol: q }) => {
                    assert_eq!(p.as_u32(), pid);
                    assert_eq!(name, "NL-FREE#12");
                    assert_eq!(q, protocol);
                }
                _ => panic!("expected a connected status"),
            }
        }
    }
    let text = String::from_utf8(Response::Status(ServerStatus::Disconnected).serialize()).unwrap();
    assert!(matches!(
        Response::deserialize(&text).unwrap(),
        Response::Status(ServerStatus::Disconnected)
    ));
}

#[test]
fn request_serialize_other_variants() {
    assert_eq!(Request::Killswitch(true).serialize(), b"killswitch:true".to_vec());
    assert_eq!(Request::Killswitch(false).serialize(), b"killswitch:false".to_vec());
    assert_eq!(
        Request::Connect("srv".into(), Protocol::Tcp).serialize(),
        b"connect:srv:tcp".to_vec()
    );
    assert_eq!(Request::Connect("srv".into(), Protocol::Tcp).message(), "connect:srv:tcp");
}

#[test]
fn request_decode_killswitch() {
    assert_eq!(Request::deserialize("killswitch:true").unwrap(), Request::Killswitch(true));
    assert_eq!(Request::deserialize("killswitch:false").unwrap(), Request::Killswitch(false));
    for bad in ["killswitch", "killswitch:", "killswitch:TRUE", "killswitch:yes", "killswitch:true:x"] {
        let error = Request::deserialize(bad).unwrap_err();
        assert_eq!(error.kind, DecodeErrorKind::IncorrectArguments);
        assert_eq!(error.message, bad);
    }
}

#[test]
fn request_decode_errors_by_kind() {
    let cases = [
        ("", DecodeErrorKind::UnknownCommand),
        ("unknown:command", DecodeErrorKind::UnknownCommand),
        ("Status", DecodeErrorKind::UnknownCommand),
        (" status", DecodeErrorKind::UnknownCommand),
        ("status:now", DecodeErrorKind::IncorrectArguments),
        ("status:", DecodeErrorKind::IncorrectArguments),
        ("disconnect:now", DecodeErrorKind::IncorrectArguments),
        ("connect", DecodeErrorKind::IncorrectArguments),
        ("connect:server1", DecodeErrorKind::IncorrectArguments),
        ("connect:server1:udp:extra", DecodeErrorKind::IncorrectArguments),
        ("connect:server1:icmp", DecodeErrorKind::InvalidProtocol),
        ("connect:server1:", DecodeErrorKind::InvalidProtocol),
        ("connect:server1:udp ", DecodeErrorKind::InvalidProtocol),
    ];
    for (message, kind) in cases {
        let error = Request::deserialize(message).unwrap_err();
        assert_eq!(error.kind, kind, "{}", message);
        assert_eq!(error.message, message);
    }
}

#[test]
fn protocol_name_is_read_without_regard_to_case() {
    assert_eq!(
        Request::deserialize("connect:server1:UDP").unwrap(),
        Request::Connect("server1".into(), Protocol::Udp)
    );
    assert_eq!(
        Request::deserialize("connect:server1:Tcp").unwrap(),
        Request::Connect("server1".into(), Protocol::Tcp)
    );
    assert_eq!(Protocol::from_str("tCp", true), Ok(Protocol::Tcp));
    assert_eq!(Protocol::from_str("tCp", false), Err("invalid variant: tCp".to_string()));
    assert_eq!(Protocol::from_str("udp", false), Ok(Protocol::Udp));
    assert_eq!(Protocol::from_str("", true), Err("invalid variant: ".to_string()));
}

#[test]
fn response_decode_errors_by_kind() {
    let cases = [
        ("unknown:command", DecodeErrorKind::UnknownCommand),
        ("", DecodeErrorKind::UnknownCommand),
        ("connect:a:udp", DecodeErrorKind::UnknownCommand),
        ("status", DecodeErrorKind::IncorrectArguments),
        ("status:invalid:command", DecodeErrorKind::IncorrectArguments),
        ("status:connected", DecodeErrorKind::IncorrectArguments),
        ("status:connected:1:a", DecodeErrorKind::IncorrectArguments),
        ("status:disconnected:x", DecodeErrorKind::IncorrectArguments),
        ("status:connected:abc:server1:udp", DecodeErrorKind::InvalidPid),
        ("status:connected::server1:udp", DecodeErrorKind::InvalidPid),
        ("status:connected:-1:server1:udp", DecodeErrorKind::InvalidPid),
        ("status:connected:4294967296:server1:udp", DecodeErrorKind::InvalidPid),
        ("status:connected:abc:server1:icmp", DecodeErrorKind::InvalidPid),
        ("status:connected:12:server1:icmp", DecodeErrorKind::InvalidProtocol),
    ];
    for (message, kind) in cases {
        let error = Response::deserialize(message).unwrap_err();
        assert_eq!(error.kind, kind, "{}", message);
        assert_eq!(error.message, message);
    }
}

#[test]
fn response_pid_is_trimmed_and_may_carry_a_plus() {
    for text in ["status:connected: 42 :n:udp", "status:connected:+42:n:udp", "status:connected:042\n:n:udp"] {
        match Response::deserialize(text).unwrap() {
            Response::Status(ServerStatus::Connected { pid, .. }) => assert_eq!(pid.as_u32(), 42),
            _ => panic!("expected a connected status"),
        }
    }
    assert_eq!(Pid::try_from("4294967295".to_string()).unwrap().as_u32(), u32::MAX);
    assert_eq!(Pid::try_from(" 12".to_string()).unwrap().as_u32(), 12);
    assert_eq!(Pid::try_from("\u{3000}12\u{a0}".to_string()).unwrap().as_u32(), 12);
    assert_eq!(Pid::try_from("1 2".to_string()).unwrap_err().text, "1 2");
    assert_eq!(Pid::try_from("+".to_string()).unwrap_err().text, "+");
    assert!(Pid::try_from("".to_string()).is_err());
    assert!(Pid::try_from("99999999999999999999".to_string()).is_err());
    assert_eq!(Pid::try_from("00000000000000000000007".to_string()).unwrap().as_u32(), 7);
}

#[test]
fn decode_error_description() {
    assert_eq!(Request::deserialize("x").unwrap_err().describe(), "no command matched");
    assert_eq!(Request::deserialize("connect").unwrap_err().describe(), "incorrect arguments");
    assert_eq!(Request::deserialize("connect:a:b").unwrap_err().describe(), "invalid protocol");
    assert_eq!(
        Response::deserialize("status:connected:x:a:udp").unwrap_err().describe(),
        "invalid process id"
    );
}

#[test]
fn split_message_cuts_at_every_colon() {
    assert_eq!(split_message("status"), ("status", vec![]));
    assert_eq!(split_message(""), ("", vec![]));
    assert_eq!(split_message("a:b:c"), ("a", vec!["b", "c"]));
    assert_eq!(split_message(":"), ("", vec![""]));
    assert_eq!(split_message("a::b:"), ("a", vec!["", "b", ""]));
}

#[test]
fn pid_display() {
    assert_eq!(Pid::from(0).to_string(), "0");
    assert_eq!(Pid::from(10).to_string(), "10");
    assert_eq!(Pid::from(4294967295).to_string(), "4294967295");
    assert_eq!(Pid::from(1234).as_u32(), 1234);
}
