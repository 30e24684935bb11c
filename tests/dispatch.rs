use sel4_bridge::cap::CapHandle;
use sel4_bridge::codec::{decode_reply, encode_request, Reply, Request, MSG_MAX_LENGTH};
use sel4_bridge::error::CapError;
use sel4_bridge::registry::SessionRegistry;
use sel4_bridge::transport::Sel4DirectTransport;

fn transport() -> Sel4DirectTransport {
    Sel4DirectTransport::new(CapHandle::new(1), CapHandle::new(2))
}

fn open(t: &Sel4DirectTransport, reg: &mut SessionRegistry) -> u64 {
    let w = encode_request(&Request::OpenSession { root_cptr: 30, max_depth: 2, max_derivations: 4, issuer_data: vec![] }).unwrap();
    match t.dispatch(reg, &w, None, 0, 10) {
        Ok((Reply::SessionOpened(id), None)) => id,
        _ => panic!("open session failed"),
    }
}

#[test]
fn open_session_registers() {
    let t = transport();
    let mut reg = SessionRegistry::new();
    assert_eq!(open(&t, &mut reg), 1);
    assert_eq!(open(&t, &mut reg), 2);
    let s = reg.session(1).unwrap();
    assert_eq!(s.root_cap, CapHandle::new(30));
    assert_eq!(s.max_depth, 2);
    assert_eq!(s.max_derivations, 4);
    assert_eq!(s.created_at_ms, 10);
    assert!(reg.contains(2));
    assert!(!reg.contains(3));
}

#[test]
fn pre_grant_memory_needs_a_capability() {
    let t = transport();
    let mut reg = SessionRegistry::new();
    let id = open(&t, &mut reg);
    let w = encode_request(&Request::PreGrantMemory { num_frames: 16 }).unwrap();
    assert!(matches!(t.dispatch(&mut reg, &w, None, id, 0), Err(CapError::MissingCapability)));
    assert!(reg.session(id).unwrap().bundles.is_empty());
}

#[test]
fn pre_grant_memory_records_bundle() {
    let t = transport();
    let mut reg = SessionRegistry::new();
    let id = open(&t, &mut reg);
    let w = encode_request(&Request::PreGrantMemory { num_frames: 16 }).unwrap();
    let r = t.dispatch(&mut reg, &w, Some(CapHandle::new(55)), id, 0);
    assert!(matches!(r, Ok((Reply::Ack, None))));
    let s = reg.session(id).unwrap();
    assert_eq!(s.bundles.len(), 1);
    assert_eq!(s.bundles[0].bundle_cnode, CapHandle::new(55));
    assert_eq!(s.bundles[0].num_frames, 16);
}

#[test]
fn pre_grant_memory_unknown_session() {
    let t = transport();
    let mut reg = SessionRegistry::new();
    let w = encode_request(&Request::PreGrantMemory { num_frames: 16 }).unwrap();
    assert!(matches!(t.dispatch(&mut reg, &w, Some(CapHandle::new(55)), 9, 0), Err(CapError::TransferFailed)));
}

#[test]
fn register_queue_returns_badged_notification() {
    let t = transport();
    let mut reg = SessionRegistry::new();
    let id = open(&t, &mut reg);
    let w = encode_request(&Request::RegisterQueue { queue_id: 3 }).unwrap();
    match t.dispatch(&mut reg, &w, None, id, 0) {
        Ok((Reply::Ack, Some(c))) => assert_eq!(c, CapHandle::badged(2, (1 << 16) | 3)),
        _ => panic!("register queue failed"),
    }
}

#[test]
fn register_queue_unknown_session() {
    let t = transport();
    let mut reg = SessionRegistry::new();
    let w = encode_request(&Request::RegisterQueue { queue_id: 3 }).unwrap();
    assert!(matches!(t.dispatch(&mut reg, &w, None, 4, 0), Err(CapError::TransferFailed)));
}

fn list_frame(payload: &[u64]) -> Vec<u64> {
    let n = payload.len() as u64;
    let mut w = vec![(n + 1) << 32, 1 | (((n << 3) | 5) << 32)];
    w.extend_from_slice(payload);
    w
}

#[test]
fn serve_malformed_request_replies_transfer_failed() {
    let t = transport();
    let mut reg = SessionRegistry::new();
    let id = open(&t, &mut reg);
    for words in [list_frame(&[0, 1]), list_frame(&[9, 9]), vec![], vec![u64::MAX, 3, 4]] {
        let (reply, m) = t.serve_request(&mut reg, &words, Some(CapHandle::new(5)), id, 0);
        assert_eq!(reply, Reply::Error(CapError::TransferFailed));
        assert_eq!(Sel4DirectTransport::complete_call(&m.words), Ok(Reply::Error(CapError::TransferFailed)));
        assert!(m.cap.is_none());
        assert_eq!(reg.sessions.len(), 1);
        assert_eq!(reg.next_session_id, 2);
        assert!(reg.session(id).unwrap().bundles.is_empty());
    }
}

#[test]
fn serve_open_session_replies_with_id() {
    let t = transport();
    let mut reg = SessionRegistry::new();
    let request = Request::OpenSession { root_cptr: 30, max_depth: 2, max_derivations: 4, issuer_data: vec![8] };
    let call = t.prepare_call(&request, None).ok().unwrap();
    let (reply, m) = t.serve_request(&mut reg, &call.words, None, 0, 0);
    assert_eq!(reply, Reply::SessionOpened(1));
    assert_eq!(m.words, list_frame(&[0, 1]));
    assert_eq!(Sel4DirectTransport::complete_call(&m.words), Ok(Reply::SessionOpened(1)));
    assert_eq!(reg.session(1).unwrap().root_cap, CapHandle::new(30));
}

#[test]
fn serve_register_queue_hands_out_badged_capability() {
    let t = transport();
    let mut reg = SessionRegistry::new();
    let id = open(&t, &mut reg);
    let call = t.prepare_call(&Request::RegisterQueue { queue_id: 7 }, None).ok().unwrap();
    let (reply, m) = t.serve_request(&mut reg, &call.words, None, id, 0);
    assert_eq!(reply, Reply::Ack);
    assert_eq!(m.cap, Some(CapHandle::badged(2, (1 << 16) | 7)));
    assert_eq!(Sel4DirectTransport::complete_call(&m.words), Ok(Reply::Ack));
}

#[test]
fn serve_pre_grant_without_capability_replies_missing() {
    let t = transport();
    let mut reg = SessionRegistry::new();
    let id = open(&t, &mut reg);
    let call = t.prepare_call(&Request::PreGrantMemory { num_frames: 2 }, None).ok().unwrap();
    let (reply, m) = t.serve_request(&mut reg, &call.words, None, id, 0);
    assert_eq!(reply, Reply::Error(CapError::MissingCapability));
    assert_eq!(Sel4DirectTransport::complete_call(&m.words), Ok(Reply::Error(CapError::MissingCapability)));
}

#[test]
fn oversized_call_never_reaches_the_kernel() {
    let t = transport();
    let mut sends = 0u32;
    let request = Request::OpenSession { root_cptr: 1, max_depth: 1, max_derivations: 1, issuer_data: vec![0; MSG_MAX_LENGTH] };
    match t.prepare_call(&request, Some(CapHandle::new(4))) {
        Ok(_) => sends += 1,
        Err(e) => assert_eq!(e, CapError::MessageTooLarge),
    }
    assert_eq!(sends, 0);
}

#[test]
fn framing_overhead_counts_against_the_limit() {
    let t = transport();
    let fits = Request::OpenSession { root_cptr: 1, max_depth: 1, max_derivations: 1, issuer_data: vec![0; MSG_MAX_LENGTH - 6] };
    assert_eq!(t.prepare_call(&fits, None).ok().unwrap().words.len(), MSG_MAX_LENGTH);
    let payload_fits_frame_does_not = Request::OpenSession { root_cptr: 1, max_depth: 1, max_derivations: 1, issuer_data: vec![0; MSG_MAX_LENGTH - 4] };
    assert!(encode_request(&payload_fits_frame_does_not).is_ok());
    assert!(matches!(t.prepare_call(&payload_fits_frame_does_not, None), Err(CapError::MessageTooLarge)));
}

#[test]
fn prepared_call_carries_framed_words_and_capability() {
    let t = transport();
    let m = t.prepare_call(&Request::RegisterQueue { queue_id: 1 }, Some(CapHandle::new(4))).ok().unwrap();
    assert_eq!(m.words, list_frame(&[2, 1]));
    assert_ne!(m.words, vec![2, 1]);
    assert_eq!(m.cap, Some(CapHandle::new(4)));
}

#[test]
fn complete_call_rejects_unframed_words() {
    assert_eq!(Sel4DirectTransport::complete_call(&vec![]), Err(CapError::TransferFailed));
    assert_eq!(Sel4DirectTransport::complete_call(&list_frame(&[7])), Err(CapError::TransferFailed));
}
