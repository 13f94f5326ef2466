use gutters::endpoint::EndpointCore;
use gutters::errors::GutterError;
use gutters::protocol::{Action, Op};

const ALL_OPS: [Op; 6] = [
    Op::PickUp,
    Op::Throw(0),
    Op::Hail,
    Op::Wait,
    Op::PickUpAndHail,
    Op::ThrowAndWait(0),
];

#[test]
fn connected_endpoint_starts_every_operation() {
    let core = EndpointCore::new();
    for op in ALL_OPS {
        assert!(core.begin(op).is_ok());
    }
}

#[test]
fn closed_endpoint_refuses_every_operation() {
    let mut core = EndpointCore::new();
    core.close();
    for op in ALL_OPS {
        match core.begin(op) {
            Err(e) => assert_eq!(e, GutterError::Closed),
            Ok(_) => panic!("a closed endpoint must refuse {:?}", op),
        }
    }
}

#[test]
fn begin_hands_out_the_opening_action() {
    let core = EndpointCore::new();
    let (action, _) = core.begin(Op::PickUp).unwrap();
    assert_eq!(action, Action::ReadExact(gutters::codec::VALUE_LEN));
    let (action, _) = core.begin(Op::Hail).unwrap();
    assert_eq!(action, Action::WriteAll(vec![gutters::codec::ACK_BYTE]));
}

#[test]
fn error_messages_are_distinct() {
    let kinds = [
        GutterError::Address,
        GutterError::Connection,
        GutterError::Bind,
        GutterError::Accept,
        GutterError::Io,
        GutterError::Protocol,
        GutterError::Timeout,
        GutterError::Closed,
    ];
    for (i, a) in kinds.iter().enumerate() {
        assert!(!a.message().is_empty());
        for b in kinds.iter().skip(i + 1) {
            assert_ne!(a.message(), b.message());
        }
    }
}
