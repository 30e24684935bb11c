use vstd::prelude::*;
use crate::error::CapError;

verus! {

/// Capacity of the kernel's message registers, in words.
pub const MSG_MAX_LENGTH: usize = 120;

pub const TAG_OPEN_SESSION: u64 = 0;
pub const TAG_PRE_GRANT_MEMORY: u64 = 1;
pub const TAG_REGISTER_QUEUE: u64 = 2;

pub const TAG_SESSION_OPENED: u64 = 0;
pub const TAG_ACK: u64 = 1;
pub const TAG_ERROR: u64 = 2;

/// A request from a client to the server.
pub enum Request {
    /// Open a session rooted at `root_cptr`, with the given quotas; the
    /// issuer's own words travel along unread.
    OpenSession { root_cptr: u64, max_depth: u64, max_derivations: u64, issuer_data: Vec<u64> },
    /// Grant a bundle of `num_frames` memory frames; the bundle itself comes
    /// as the attached capability.
    PreGrantMemory { num_frames: u64 },
    /// Ask for a badged notification capability for queue `queue_id`.
    RegisterQueue { queue_id: u16 },
}

/// What a `Request` holds, with the issuer's words as a sequence.
pub ghost enum RequestView {
    OpenSession { root_cptr: u64, max_depth: u64, max_derivations: u64, issuer_data: Seq<u64> },
    PreGrantMemory { num_frames: u64 },
    RegisterQueue { queue_id: u16 },
}

impl View for Request {
    type V = RequestView;

    open spec fn view(&self) -> RequestView {
        match self {
            Request::OpenSession { root_cptr, max_depth, max_derivations, issuer_data } =>
                RequestView::OpenSession {
                    root_cptr: *root_cptr,
                    max_depth: *max_depth,
                    max_derivations: *max_derivations,
                    issuer_data: issuer_data@,
                },
            Request::PreGrantMemory { num_frames } => RequestView::PreGrantMemory {
                num_frames: *num_frames,
            },
            Request::RegisterQueue { queue_id } => RequestView::RegisterQueue {
                queue_id: *queue_id,
            },
        }
    }
}

/// The words a request is encoded into: its tag, then its fields in order.
pub open spec fn request_words(r: RequestView) -> Seq<u64> {
    match r {
        RequestView::OpenSession { root_cptr, max_depth, max_derivations, issuer_data } =>
            seq![TAG_OPEN_SESSION, root_cptr, max_depth, max_derivations] + issuer_data,
        RequestView::PreGrantMemory { num_frames } => seq![TAG_PRE_GRANT_MEMORY, num_frames],
        RequestView::RegisterQueue { queue_id } => seq![TAG_REGISTER_QUEUE, queue_id as u64],
    }
}

/// The request that `w` encodes, if any.
pub open spec fn parse_request(w: Seq<u64>) -> Option<RequestView> {
    if w.len() >= 4 && w[0] == TAG_OPEN_SESSION {
        Some(
            RequestView::OpenSession {
                root_cptr: w[1],
                max_depth: w[2],
                max_derivations: w[3],
                issuer_data: w.subrange(4, w.len() as int),
            },
        )
    } else if w.len() == 2 && w[0] == TAG_PRE_GRANT_MEMORY {
        Some(RequestView::PreGrantMemory { num_frames: w[1] })
    } else if w.len() == 2 && w[0] == TAG_REGISTER_QUEUE && w[1] <= 0xffff {
        Some(RequestView::RegisterQueue { queue_id: w[1] as u16 })
    } else {
        None
    }
}

/// Encodes `r` into message words, failing where they would not fit in the
/// message registers.
pub fn encode_request(r: &Request) -> (res: Result<Vec<u64>, CapError>)
    ensures
        request_words(r@).len() > MSG_MAX_LENGTH ==> res == Err::<Vec<u64>, CapError>(
            CapError::MessageTooLarge,
        ),
        request_words(r@).len() <= MSG_MAX_LENGTH ==> (res matches Ok(w) && w@ == request_words(r@)),
{
    match r {
        Request::OpenSession { root_cptr, max_depth, max_derivations, issuer_data } => {
            if issuer_data.len() > MSG_MAX_LENGTH - 4 {
                return Err(CapError::MessageTooLarge);
            }
            let mut w: Vec<u64> = vec![TAG_OPEN_SESSION, *root_cptr, *max_depth, *max_derivations];
            let mut i: usize = 0;
            while i < issuer_data.len()
                invariant
                    i <= issuer_data.len(),
                    w@ == seq![TAG_OPEN_SESSION, *root_cptr, *max_depth, *max_derivations]
                        + issuer_data@.subrange(0, i as int),
                decreases issuer_data.len() - i,
            {
                w.push(issuer_data[i]);
                i = i + 1;
                assert(issuer_data@.subrange(0, i as int) =~= issuer_data@.subrange(0, i - 1)
                    .push(issuer_data@[i - 1]));
            }
            assert(issuer_data@.subrange(0, i as int) =~= issuer_data@);
            Ok(w)
        },
        Request::PreGrantMemory { num_frames } => Ok(vec![TAG_PRE_GRANT_MEMORY, *num_frames]),
        Request::RegisterQueue { queue_id } => Ok(vec![TAG_REGISTER_QUEUE, *queue_id as u64]),
    }
}

/// Decodes message words into a request; `TransferFailed` where they encode none.
pub fn decode_request(w: &Vec<u64>) -> (res: Result<Request, CapError>)
    ensures
        parse_request(w@) is None ==> res == Err::<Request, CapError>(CapError::TransferFailed),
        parse_request(w@) matches Some(v) ==> (res matches Ok(r) && r@ == v),
{
    if w.len() >= 4 && w[0] == TAG_OPEN_SESSION {
        let mut data: Vec<u64> = Vec::new();
        let mut i: usize = 4;
        while i < w.len()
            invariant
                4 <= i <= w.len(),
                data@ == w@.subrange(4, i as int),
            decreases w.len() - i,
        {
            data.push(w[i]);
            i = i + 1;
            assert(w@.subrange(4, i as int) =~= w@.subrange(4, i - 1).push(w@[i - 1]));
        }
        Ok(Request::OpenSession {
            root_cptr: w[1],
            max_depth: w[2],
            max_derivations: w[3],
            issuer_data: data,
        })
    } else if w.len() == 2 && w[0] == TAG_PRE_GRANT_MEMORY {
        Ok(Request::PreGrantMemory { num_frames: w[1] })
    } else if w.len() == 2 && w[0] == TAG_REGISTER_QUEUE && w[1] <= 0xffff {
        Ok(Request::RegisterQueue { queue_id: w[1] as u16 })
    } else {
        Err(CapError::TransferFailed)
    }
}

/// Decoding the words of a request gives back that request, tag and fields.
pub proof fn lemma_request_round_trip(r: RequestView)
    ensures
        parse_request(request_words(r)) == Some(r),
{
    let w = request_words(r);
    match r {
        RequestView::OpenSession { root_cptr, max_depth, max_derivations, issuer_data } => {
            assert(w.subrange(4, w.len() as int) =~= issuer_data);
        },
        RequestView::PreGrantMemory { num_frames } => {},
        RequestView::RegisterQueue { queue_id } => {
            assert(queue_id as u64 as u16 == queue_id);
        },
    }
}

/// A reply from the server to a client.
#[derive(Debug, Clone, Copy, PartialEq, Eq, Structural)]
pub enum Reply {
    /// A session was opened under this id.
    SessionOpened(u64),
    /// The request was carried out.
    Ack,
    /// The request failed.
    Error(CapError),
}

/// The words that stand for an error inside an error reply.
pub open spec fn error_words(e: CapError) -> Seq<u64> {
    match e {
        CapError::Sel4Error(code) => seq![0u64, code as u64],
        CapError::MaxDepthExceeded => seq![1u64],
        CapError::MaxDerivationsExceeded => seq![2u64],
        CapError::MessageTooLarge => seq![3u64],
        CapError::MissingCapability => seq![4u64],
        CapError::TransferFailed => seq![5u64],
        CapError::RevokeFailed => seq![6u64],
    }
}

/// The words a reply is encoded into.
pub open spec fn reply_words(r: Reply) -> Seq<u64> {
    match r {
        Reply::SessionOpened(id) => seq![TAG_SESSION_OPENED, id],
        Reply::Ack => seq![TAG_ACK],
        Reply::Error(e) => seq![TAG_ERROR] + error_words(e),
    }
}

/// The error that `w` encodes, if any.
pub open spec fn parse_error(w: Seq<u64>) -> Option<CapError> {
    if w.len() == 2 && w[0] == 0 && w[1] <= u32::MAX {
        Some(CapError::Sel4Error(w[1] as u32))
    } else if w.len() == 1 && w[0] == 1 {
        Some(CapError::MaxDepthExceeded)
    } else if w.len() == 1 && w[0] == 2 {
        Some(CapError::MaxDerivationsExceeded)
    } else if w.len() == 1 && w[0] == 3 {
        Some(CapError::MessageTooLarge)
    } else if w.len() == 1 && w[0] == 4 {
        Some(CapError::MissingCapability)
    } else if w.len() == 1 && w[0] == 5 {
        Some(CapError::TransferFailed)
    } else if w.len() == 1 && w[0] == 6 {
        Some(CapError::RevokeFailed)
    } else {
        None
    }
}

/// The reply that `w` encodes, if any.
pub open spec fn parse_reply(w: Seq<u64>) -> Option<Reply> {
    if w.len() == 2 && w[0] == TAG_SESSION_OPENED {
        Some(Reply::SessionOpened(w[1]))
    } else if w.len() == 1 && w[0] == TAG_ACK {
        Some(Reply::Ack)
    } else if w.len() >= 1 && w[0] == TAG_ERROR {
        match parse_error(w.subrange(1, w.len() as int)) {
            Some(e) => Some(Reply::Error(e)),
            None => None,
        }
    } else {
        None
    }
}

/// Encodes a reply into message words; a reply always fits.
pub fn encode_reply(r: Reply) -> (w: Vec<u64>)
    ensures
        w@ == reply_words(r),
        w@.len() <= MSG_MAX_LENGTH,
{
    match r {
        Reply::SessionOpened(id) => vec![TAG_SESSION_OPENED, id],
        Reply::Ack => vec![TAG_ACK],
        Reply::Error(e) => {
            let w = match e {
                CapError::Sel4Error(code) => vec![TAG_ERROR, 0, code as u64],
                CapError::MaxDepthExceeded => vec![TAG_ERROR, 1],
                CapError::MaxDerivationsExceeded => vec![TAG_ERROR, 2],
                CapError::MessageTooLarge => vec![TAG_ERROR, 3],
                CapError::MissingCapability => vec![TAG_ERROR, 4],
                CapError::TransferFailed => vec![TAG_ERROR, 5],
                CapError::RevokeFailed => vec![TAG_ERROR, 6],
            };
            assert(w@ =~= reply_words(r));
            w
        },
    }
}

/// Decodes message words into a reply; `TransferFailed` where they encode none.
pub fn decode_reply(w: &Vec<u64>) -> (res: Result<Reply, CapError>)
    ensures
        parse_reply(w@) is None ==> res == Err::<Reply, CapError>(CapError::TransferFailed),
        parse_reply(w@) matches Some(r) ==> res == Ok::<Reply, CapError>(r),
{
    let n = w.len();
    if n == 2 && w[0] == TAG_SESSION_OPENED {
        return Ok(Reply::SessionOpened(w[1]));
    }
    if n == 1 && w[0] == TAG_ACK {
        return Ok(Reply::Ack);
    }
    if n >= 1 && w[0] == TAG_ERROR {
        let ghost rest = w@.subrange(1, n as int);
        assert(n >= 2 ==> rest[0] == w@[1]);
        assert(n == 3 ==> rest[1] == w@[2]);
        let e = if n == 3 && w[1] == 0 && w[2] <= u32::MAX as u64 {
            CapError::Sel4Error(w[2] as u32)
        } else if n == 2 && w[1] == 1 {
            CapError::MaxDepthExceeded
        } else if n == 2 && w[1] == 2 {
            CapError::MaxDerivationsExceeded
        } else if n == 2 && w[1] == 3 {
            CapError::MessageTooLarge
        } else if n == 2 && w[1] == 4 {
            CapError::MissingCapability
        } else if n == 2 && w[1] == 5 {
            CapError::TransferFailed
        } else if n == 2 && w[1] == 6 {
            CapError::RevokeFailed
        } else {
            return Err(CapError::TransferFailed);
        };
        return Ok(Reply::Error(e));
    }
    Err(CapError::TransferFailed)
}

/// Decoding the words of a reply gives back that reply.
pub proof fn lemma_reply_round_trip(r: Reply)
    ensures
        parse_reply(reply_words(r)) == Some(r),
{
    let w = reply_words(r);
    if let Reply::Error(e) = r {
        assert(w.subrange(1, w.len() as int) =~= error_words(e));
    }
}

} // verus!
