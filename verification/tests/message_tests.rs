use my_socket_io::my_socket_io_message::{MySocketIoMessage, MySocketIoTextMessage};
use my_socket_io::wire_format::ProtocolDecodeError;

#[test]
fn test_message() {
    let msg = MySocketIoMessage::Message(MySocketIoTextMessage {
        nsp: None,
        data: "[\"Test1\",\"Test2\"]".to_string(),
        id: None,
    });
    assert_eq!(msg.to_string(), "42[\"Test1\",\"Test2\"]");
}

#[test]
fn test_parse_message() {
    let src = "420[\"chat message\",\"123\",{\"name\":\"chat\"}]";
    let message = MySocketIoMessage::parse(src).unwrap().unwrap();

    if let MySocketIoMessage::Message(message) = message {
        assert_eq!(message.nsp.is_none(), true);
        assert_eq!(message.id.as_ref().unwrap(), "0");
        assert_eq!(message.data.as_str(), &src[3..]);
    } else {
        panic!("Should not be here");
    }
}

#[test]
fn test_connect_message() {
    let connect_message = MySocketIoMessage::Connect(None);
    let result = connect_message.to_string();
    assert_eq!("40", result.as_str());
    if let MySocketIoMessage::Connect(result) =
        MySocketIoMessage::parse(result.as_str()).unwrap().unwrap()
    {
        assert_eq!(result.is_none(), true);
    } else {
        panic!("Should not be here");
    }

    let connect_message = MySocketIoMessage::Connect(Some("/admin".to_string()));

    let result = connect_message.to_string();

    assert_eq!("40/admin,", result.as_str());

    if let MySocketIoMessage::Connect(result) =
        MySocketIoMessage::parse(result.as_str()).unwrap().unwrap()
    {
        if let Some(nsp) = result {
            assert_eq!("/admin", nsp);
        }
    } else {
        panic!("Should not be here");
    }
}

#[test]
fn test_decode_control_frames() {
    assert!(matches!(
        MySocketIoMessage::parse("2"),
        Ok(Some(MySocketIoMessage::Ping))
    ));
    assert!(matches!(
        MySocketIoMessage::parse("3"),
        Ok(Some(MySocketIoMessage::Pong))
    ));
    assert!(matches!(
        MySocketIoMessage::parse("41"),
        Ok(Some(MySocketIoMessage::Disconnect))
    ));
    assert!(matches!(
        MySocketIoMessage::parse("40"),
        Ok(Some(MySocketIoMessage::Connect(None)))
    ));
    match MySocketIoMessage::parse("40/admin,") {
        Ok(Some(MySocketIoMessage::Connect(Some(nsp)))) => assert_eq!(nsp, "/admin"),
        _ => panic!("expected a namespaced connect"),
    }
}

#[test]
fn test_encode_control_frames() {
    assert_eq!(MySocketIoMessage::Ping.to_string(), "2");
    assert_eq!(MySocketIoMessage::Pong.to_string(), "3");
    assert_eq!(MySocketIoMessage::Disconnect.to_string(), "41");
    let grant = MySocketIoMessage::GrantAccess {
        nsp: Some("/chat".to_string()),
        sid: "abcd1234".to_string(),
    };
    assert_eq!(grant.to_string(), "40/chat,abcd1234");
    let grant_root = MySocketIoMessage::GrantAccess {
        nsp: None,
        sid: "abcd1234".to_string(),
    };
    assert_eq!(grant_root.to_string(), "40abcd1234");
    let request = MySocketIoMessage::RequestAccess(Some("/chat".to_string()));
    assert_eq!(request.to_string(), "40/chat,");
}

#[test]
fn test_round_trip_combinations() {
    let cases: Vec<(Option<&str>, Option<&str>)> = vec![
        (None, None),
        (None, Some("7")),
        (Some("/admin"), None),
        (Some("/admin"), Some("123")),
    ];
    for (nsp, id) in cases {
        for tag_ack in [false, true] {
            let payload = MySocketIoTextMessage {
                nsp: nsp.map(|s| s.to_string()),
                data: "[\"ev\",{\"x\":1}]".to_string(),
                id: id.map(|s| s.to_string()),
            };
            let msg = if tag_ack {
                MySocketIoMessage::Ack(payload)
            } else {
                MySocketIoMessage::Message(payload)
            };
            let encoded = msg.to_string();
            let decoded = MySocketIoMessage::parse(encoded.as_str()).unwrap().unwrap();
            let back = match decoded {
                MySocketIoMessage::Message(p) => {
                    assert!(!tag_ack);
                    p
                }
                MySocketIoMessage::Ack(p) => {
                    assert!(tag_ack);
                    p
                }
                _ => panic!("wrong variant after round trip"),
            };
            assert_eq!(back.nsp.as_deref(), nsp);
            assert_eq!(back.id.as_deref(), id);
            assert_eq!(back.data, "[\"ev\",{\"x\":1}]");
        }
    }
}

#[test]
fn test_decode_errors() {
    assert!(matches!(
        MySocketIoMessage::parse("42/admin"),
        Err(ProtocolDecodeError::MissingNamespaceTerminator)
    ));
    assert!(matches!(
        MySocketIoMessage::parse("40/admin"),
        Err(ProtocolDecodeError::MissingNamespaceTerminator)
    ));
    assert!(matches!(
        MySocketIoMessage::parse("42"),
        Err(ProtocolDecodeError::MissingPayloadArray)
    ));
    assert!(matches!(
        MySocketIoMessage::parse("43017"),
        Err(ProtocolDecodeError::MissingPayloadArray)
    ));
}

#[test]
fn test_unrecognized_prefix_is_no_packet() {
    assert!(matches!(MySocketIoMessage::parse(""), Ok(None)));
    assert!(matches!(MySocketIoMessage::parse("9"), Ok(None)));
    assert!(matches!(MySocketIoMessage::parse("44"), Ok(None)));
    assert!(matches!(MySocketIoMessage::parse("4"), Ok(None)));
}

#[test]
fn test_payload_parse_and_serialize() {
    let parsed =
        MySocketIoTextMessage::parse("43/room,42[\"answer\",7]").unwrap();
    assert_eq!(parsed.nsp.as_deref(), Some("/room"));
    assert_eq!(parsed.id.as_deref(), Some("42"));
    assert_eq!(parsed.data, "[\"answer\",7]");

    let mut out = String::from("43");
    parsed.serialize(&mut out);
    assert_eq!(out, "43/room,42[\"answer\",7]");
}
