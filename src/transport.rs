use vstd::prelude::*;
use crate::badge::{badge_of, notification_badge, MAX_SESSION_ID};
use crate::bundle::CapBundle;
use crate::cap::CapHandle;
use crate::codec::{
    decode_reply, decode_request, encode_reply, encode_request, parse_reply, parse_request,
    reply_words, request_words, Reply, Request, RequestView, MSG_MAX_LENGTH,
};
use crate::error::CapError;
use crate::framing::{capnp_unframe, frame, frame_payload, is_stream_frame, stream_frame, unframe};
use crate::registry::SessionRegistry;

verus! {

/// What goes to the kernel in one send: the message words, and at most one
/// capability for the single transfer slot.
pub struct OutgoingMessage {
    pub words: Vec<u64>,
    pub cap: Option<CapHandle>,
}

/// The decisions of the synchronous transport bound to one endpoint.
///
/// The kernel primitives are issued by the caller: it sends what
/// `prepare_call` and `serve_request` produce, and hands back what arrived.
pub struct Sel4DirectTransport {
    /// The endpoint this transport receives on.
    pub local_endpoint: CapHandle,
    /// The notification object from which badged queue capabilities are minted.
    pub notification_source: CapHandle,
}

/// What the dispatch of the request payload `payload` from sender `badge`,
/// with `received_cap` attached, gives and does to the registry.
///
/// A payload that encodes no request, and every failure, leaves the
/// registry as it was.
pub open spec fn dispatch_outcome(
    notification_source: CapHandle,
    before: SessionRegistry,
    after: SessionRegistry,
    payload: Seq<u64>,
    received_cap: Option<CapHandle>,
    badge: u64,
    now_ms: u128,
    r: Result<(Reply, Option<CapHandle>), CapError>,
) -> bool {
    &&& r is Err ==> after == before
    &&& match parse_request(payload) {
        None => r == Err::<(Reply, Option<CapHandle>), CapError>(CapError::TransferFailed),
        Some(RequestView::OpenSession { root_cptr, max_depth, max_derivations, .. }) => {
            let id = before.next_session_id;
            if id > MAX_SESSION_ID {
                r == Err::<(Reply, Option<CapHandle>), CapError>(CapError::TransferFailed)
            } else {
                &&& r == Ok::<(Reply, Option<CapHandle>), CapError>(
                    (Reply::SessionOpened(id), None),
                )
                &&& after.opened_from(
                    before,
                    CapHandle { cptr: root_cptr, badge: None },
                    max_depth as usize,
                    max_derivations as usize,
                    now_ms,
                )
            }
        },
        Some(RequestView::PreGrantMemory { num_frames }) => {
            if received_cap is None {
                r == Err::<(Reply, Option<CapHandle>), CapError>(CapError::MissingCapability)
            } else if !before.has(badge) {
                r == Err::<(Reply, Option<CapHandle>), CapError>(CapError::TransferFailed)
            } else {
                &&& r == Ok::<(Reply, Option<CapHandle>), CapError>((Reply::Ack, None))
                &&& after.granted_from(
                    before,
                    badge,
                    CapBundle {
                        bundle_cnode: received_cap->0,
                        num_frames: num_frames as usize,
                        revoked: false,
                    },
                )
            }
        },
        Some(RequestView::RegisterQueue { queue_id }) => {
            if !before.has(badge) || badge > MAX_SESSION_ID {
                r == Err::<(Reply, Option<CapHandle>), CapError>(CapError::TransferFailed)
            } else {
                &&& after == before
                &&& r == Ok::<(Reply, Option<CapHandle>), CapError>(
                    (
                        Reply::Ack,
                        Some(
                            CapHandle {
                                cptr: notification_source.cptr,
                                badge: Some(badge_of(badge, queue_id) as u64),
                            },
                        ),
                    ),
                )
            }
        },
    }
}

/// The payload that the server dispatches for received words: the payload
/// of the frame, or none where the words are no frame.
pub open spec fn served_payload(w: Seq<u64>) -> Seq<u64> {
    if is_stream_frame(w) {
        frame_payload(w)
    } else {
        match capnp_unframe(w) {
            Some(p) => p,
            None => Seq::empty(),
        }
    }
}

/// The reply that framed words hold, if any.
pub open spec fn reply_of_frame(w: Seq<u64>) -> Option<Reply> {
    if is_stream_frame(w) {
        parse_reply(frame_payload(w))
    } else {
        match capnp_unframe(w) {
            Some(p) => parse_reply(p),
            None => None,
        }
    }
}

/// The request that framed words hold, if any.
pub open spec fn request_of_frame(w: Seq<u64>) -> Option<RequestView> {
    parse_request(served_payload(w))
}

/// Framing a request's words and reading them back on the server gives the
/// request, tag and fields; likewise for a reply read back by the client.
pub proof fn lemma_framed_round_trip(req: RequestView, reply: Reply)
    requires
        request_words(req).len() + 2 <= MSG_MAX_LENGTH,
    ensures
        request_of_frame(stream_frame(request_words(req))) == Some(req),
        reply_of_frame(stream_frame(reply_words(reply))) == Some(reply),
{
    crate::framing::lemma_frame_round_trip(request_words(req));
    crate::codec::lemma_request_round_trip(req);
    crate::framing::lemma_frame_round_trip(reply_words(reply));
    crate::codec::lemma_reply_round_trip(reply);
}

impl Sel4DirectTransport {
    pub fn new(local_endpoint: CapHandle, notification_source: CapHandle) -> (r: Sel4DirectTransport)
        ensures
            r.local_endpoint == local_endpoint,
            r.notification_source == notification_source,
    {
        Sel4DirectTransport { local_endpoint, notification_source }
    }

    /// The client side of a call: encodes `request`, frames it, and attaches
    /// `transfer_cap`. Where the framed words would not fit in the message
    /// registers this is `MessageTooLarge`, and there is nothing to send.
    pub fn prepare_call(&self, request: &Request, transfer_cap: Option<CapHandle>) -> (r: Result<
        OutgoingMessage,
        CapError,
    >)
        ensures
            r is Err <==> stream_frame(request_words(request@)).len() > MSG_MAX_LENGTH,
            r is Err ==> r == Err::<OutgoingMessage, CapError>(CapError::MessageTooLarge),
            r matches Ok(m) ==> m.words@ == stream_frame(request_words(request@)) && m.cap
                == transfer_cap,
    {
        let payload = encode_request(request)?;
        if payload.len() > MSG_MAX_LENGTH - 2 {
            return Err(CapError::MessageTooLarge);
        }
        let words = frame(&payload);
        Ok(OutgoingMessage { words, cap: transfer_cap })
    }

    /// The client side after the reply arrived: unframes and decodes the
    /// reply words; `TransferFailed` where they hold no reply.
    pub fn complete_call(reply_words: &Vec<u64>) -> (r: Result<Reply, CapError>)
        ensures
            r == match reply_of_frame(reply_words@) {
                Some(x) => Ok::<Reply, CapError>(x),
                None => Err::<Reply, CapError>(CapError::TransferFailed),
            },
    {
        match unframe(reply_words) {
            Some(payload) => decode_reply(&payload),
            None => Err(CapError::TransferFailed),
        }
    }

    /// The capability to hand out for queue `queue_id` of session
    /// `session_id`: the notification source, badged with the pair.
    fn mint_notification_cap(&self, session_id: u64, queue_id: u16) -> (r: Result<
        CapHandle,
        CapError,
    >)
        ensures
            session_id > MAX_SESSION_ID ==> r == Err::<CapHandle, CapError>(
                CapError::TransferFailed,
            ),
            session_id <= MAX_SESSION_ID ==> (r matches Ok(c) && c.cptr
                == self.notification_source.cptr && c.badge == Some(
                badge_of(session_id, queue_id) as u64,
            )),
    {
        match notification_badge(session_id, queue_id) {
            Some(b) => Ok(CapHandle::badged(self.notification_source.cptr, b)),
            None => Err(CapError::TransferFailed),
        }
    }

    /// Carries out one decoded request from the sender identified by `badge`,
    /// with the capability it attached, if any. Gives the reply and at most
    /// one capability to send back.
    pub fn dispatch(
        &self,
        registry: &mut SessionRegistry,
        request_words: &Vec<u64>,
        received_cap: Option<CapHandle>,
        badge: u64,
        now_ms: u128,
    ) -> (r: Result<(Reply, Option<CapHandle>), CapError>)
        requires
            old(registry).wf(),
        ensures
            final(registry).wf(),
            dispatch_outcome(
                self.notification_source,
                *old(registry),
                *final(registry),
                request_words@,
                received_cap,
                badge,
                now_ms,
                r,
            ),
    {
        let request = match decode_request(request_words) {
            Ok(req) => req,
            Err(e) => return Err(e),
        };
        match request {
            Request::OpenSession { root_cptr, max_depth, max_derivations, issuer_data: _ } => {
                let id = registry.open_session(
                    CapHandle::new(root_cptr),
                    max_depth as usize,
                    max_derivations as usize,
                    now_ms,
                )?;
                Ok((Reply::SessionOpened(id), None))
            },
            Request::PreGrantMemory { num_frames } => {
                let cap = match received_cap {
                    Some(c) => c,
                    None => return Err(CapError::MissingCapability),
                };
                registry.grant_bundle(badge, CapBundle::new(cap, num_frames as usize))?;
                Ok((Reply::Ack, None))
            },
            Request::RegisterQueue { queue_id } => {
                if !registry.contains(badge) {
                    return Err(CapError::TransferFailed);
                }
                let notify_cap = self.mint_notification_cap(badge, queue_id)?;
                Ok((Reply::Ack, Some(notify_cap)))
            },
        }
    }

    /// The server side of one request/reply cycle, between the kernel receive
    /// and the kernel reply: unframes and dispatches the received words, and
    /// gives the reply with its framed words. A failed request is answered
    /// with an error reply and no capability.
    pub fn serve_request(
        &self,
        registry: &mut SessionRegistry,
        request_words: &Vec<u64>,
        received_cap: Option<CapHandle>,
        badge: u64,
        now_ms: u128,
    ) -> (r: (Reply, OutgoingMessage))
        requires
            old(registry).wf(),
        ensures
            final(registry).wf(),
            r.1.words@ == stream_frame(reply_words(r.0)),
            dispatch_outcome(
                self.notification_source,
                *old(registry),
                *final(registry),
                served_payload(request_words@),
                received_cap,
                badge,
                now_ms,
                match r.0 {
                    Reply::Error(e) => Err(e),
                    _ => Ok((r.0, r.1.cap)),
                },
            ),
            r.0 is Error ==> r.1.cap is None,
    {
        let payload = match unframe(request_words) {
            Some(p) => p,
            None => Vec::new(),
        };
        let (reply, cap) = match self.dispatch(registry, &payload, received_cap, badge, now_ms) {
            Ok((reply, cap)) => (reply, cap),
            Err(e) => (Reply::Error(e), None),
        };
        let message = Self::reply_message(reply);
        (reply, OutgoingMessage { words: message.words, cap })
    }

    /// The framed words of `reply`, with no capability attached.
    pub fn reply_message(reply: Reply) -> (m: OutgoingMessage)
        ensures
            m.words@ == stream_frame(reply_words(reply)),
            m.cap is None,
    {
        let payload = encode_reply(reply);
        OutgoingMessage { words: frame(&payload), cap: None }
    }
}

} // verus!
