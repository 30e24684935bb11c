use vstd::prelude::*;

verus! {

/// Number of low badge bits that carry the queue id.
pub const QUEUE_BITS: u64 = 16;

/// The largest session id that fits in the badge beside a queue id.
pub const MAX_SESSION_ID: u64 = 0xffff_ffff_ffff;

/// The badge of the notification capability of queue `queue_id` in session
/// `session_id`: the session id in the high 48 bits, the queue id in the low 16.
pub open spec fn badge_of(session_id: u64, queue_id: u16) -> int {
    session_id as int * 0x1_0000 + queue_id as int
}

/// Computes the badge for `(session_id, queue_id)`, or `None` where the
/// session id does not fit in the badge's high bits.
pub fn notification_badge(session_id: u64, queue_id: u16) -> (r: Option<u64>)
    ensures
        session_id <= MAX_SESSION_ID <==> r is Some,
        r matches Some(b) ==> b as int == badge_of(session_id, queue_id),
{
    if session_id > MAX_SESSION_ID {
        None
    } else {
        assert(session_id as int * 0x1_0000 + queue_id as int <= u64::MAX) by (nonlinear_arith)
            requires session_id <= MAX_SESSION_ID, queue_id <= 0xffff;
        Some(session_id * 0x1_0000 + queue_id as u64)
    }
}

/// Reads the session id back out of a badge.
pub open spec fn badge_session(badge: int) -> int {
    badge / 0x1_0000
}

/// Reads the queue id back out of a badge.
pub open spec fn badge_queue(badge: int) -> int {
    badge % 0x1_0000
}

/// A badge gives back the session and queue it was made from.
pub proof fn lemma_badge_decodes(session_id: u64, queue_id: u16)
    ensures
        badge_session(badge_of(session_id, queue_id)) == session_id,
        badge_queue(badge_of(session_id, queue_id)) == queue_id,
{
    let b = badge_of(session_id, queue_id);
    assert(b == session_id as int * 0x1_0000 + queue_id as int);
    vstd::arithmetic::div_mod::lemma_fundamental_div_mod_converse(
        b, 0x1_0000, session_id as int, queue_id as int);
}

/// Two distinct `(session, queue)` pairs never share a badge.
pub proof fn lemma_badges_distinct(s1: u64, q1: u16, s2: u64, q2: u16)
    requires
        s1 <= MAX_SESSION_ID,
        s2 <= MAX_SESSION_ID,
        s1 != s2 || q1 != q2,
    ensures
        badge_of(s1, q1) != badge_of(s2, q2),
{
    lemma_badge_decodes(s1, q1);
    lemma_badge_decodes(s2, q2);
}

} // verus!
