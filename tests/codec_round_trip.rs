use sel4_bridge::codec::{
    decode_reply, decode_request, encode_reply, encode_request, Reply, Request, MSG_MAX_LENGTH,
};
use sel4_bridge::error::CapError;

fn same(a: &Request, b: &Request) -> bool {
    match (a, b) {
        (
            Request::OpenSession { root_cptr: r1, max_depth: d1, max_derivations: m1, issuer_data: i1 },
            Request::OpenSession { root_cptr: r2, max_depth: d2, max_derivations: m2, issuer_data: i2 },
        ) => r1 == r2 && d1 == d2 && m1 == m2 && i1 == i2,
        (Request::PreGrantMemory { num_frames: a }, Request::PreGrantMemory { num_frames: b }) => a == b,
        (Request::RegisterQueue { queue_id: a }, Request::RegisterQueue { queue_id: b }) => a == b,
        _ => false,
    }
}

#[test]
fn open_session_round_trip() {
    let r = Request::OpenSession { root_cptr: 5, max_depth: 3, max_derivations: 9, issuer_data: vec![1, 2, 3] };
    let w = encode_request(&r).unwrap();
    assert_eq!(w, vec![0, 5, 3, 9, 1, 2, 3]);
    assert!(same(&decode_request(&w).unwrap(), &r));
}

#[test]
fn pre_grant_memory_round_trip() {
    let r = Request::PreGrantMemory { num_frames: 64 };
    let w = encode_request(&r).unwrap();
    assert_eq!(w, vec![1, 64]);
    assert!(same(&decode_request(&w).unwrap(), &r));
}

#[test]
fn register_queue_round_trip() {
    let r = Request::RegisterQueue { queue_id: 0xffff };
    let w = encode_request(&r).unwrap();
    assert_eq!(w, vec![2, 0xffff]);
    assert!(same(&decode_request(&w).unwrap(), &r));
}

#[test]
fn largest_message_fits() {
    let r = Request::OpenSession { root_cptr: 1, max_depth: 1, max_derivations: 1, issuer_data: vec![7; MSG_MAX_LENGTH - 4] };
    let w = encode_request(&r).unwrap();
    assert_eq!(w.len(), MSG_MAX_LENGTH);
    assert!(same(&decode_request(&w).unwrap(), &r));
}

#[test]
fn oversized_message_is_refused() {
    let r = Request::OpenSession { root_cptr: 1, max_depth: 1, max_derivations: 1, issuer_data: vec![7; MSG_MAX_LENGTH - 3] };
    assert!(matches!(encode_request(&r), Err(CapError::MessageTooLarge)));
}

#[test]
fn malformed_requests_fail_to_decode() {
    assert!(matches!(decode_request(&vec![]), Err(CapError::TransferFailed)));
    assert!(matches!(decode_request(&vec![9, 1]), Err(CapError::TransferFailed)));
    assert!(matches!(decode_request(&vec![0, 1, 2]), Err(CapError::TransferFailed)));
    assert!(matches!(decode_request(&vec![1, 2, 3]), Err(CapError::TransferFailed)));
    assert!(matches!(decode_request(&vec![2, 0x1_0000]), Err(CapError::TransferFailed)));
}

#[test]
fn reply_round_trips() {
    let replies = vec![
        Reply::SessionOpened(42),
        Reply::Ack,
        Reply::Error(CapError::Sel4Error(77)),
        Reply::Error(CapError::MaxDepthExceeded),
        Reply::Error(CapError::MaxDerivationsExceeded),
        Reply::Error(CapError::MessageTooLarge),
        Reply::Error(CapError::MissingCapability),
        Reply::Error(CapError::TransferFailed),
        Reply::Error(CapError::RevokeFailed),
    ];
    for r in replies {
        assert_eq!(decode_reply(&encode_reply(r)), Ok(r));
    }
}

#[test]
fn reply_words_are_exact() {
    assert_eq!(encode_reply(Reply::SessionOpened(42)), vec![0, 42]);
    assert_eq!(encode_reply(Reply::Ack), vec![1]);
    assert_eq!(encode_reply(Reply::Error(CapError::Sel4Error(77))), vec![2, 0, 77]);
    assert_eq!(encode_reply(Reply::Error(CapError::TransferFailed)), vec![2, 5]);
}

#[test]
fn malformed_replies_fail_to_decode() {
    assert_eq!(decode_reply(&vec![]), Err(CapError::TransferFailed));
    assert_eq!(decode_reply(&vec![2, 9]), Err(CapError::TransferFailed));
    assert_eq!(decode_reply(&vec![2, 0, 1u64 << 40]), Err(CapError::TransferFailed));
    assert_eq!(decode_reply(&vec![1, 1]), Err(CapError::TransferFailed));
}
