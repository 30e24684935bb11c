use vstd::prelude::*;

verus! {

/// The largest payload, in words, that a frame carries here.
pub const MAX_FRAMED_PAYLOAD: usize = 1022;

/// The first word of a one-segment stream frame around `n` payload words:
/// segment count less one (zero) in the low half, the segment's size in
/// words (root pointer and list) in the high half.
pub open spec fn frame_table_word(n: nat) -> u64 {
    ((n + 1) as u64) << 32u64
}

/// The root pointer of that frame: a list pointer (kind 1) at offset zero,
/// with eight-byte elements (size class 5) and `n` of them.
pub open spec fn frame_root_word(n: nat) -> u64 {
    1u64 | (5u64 << 32u64) | ((n as u64) << 35u64)
}

/// The Cap'n Proto stream frame of a message whose root is a `List(UInt64)`
/// holding `payload`, as long as it fits in the first segment.
pub open spec fn stream_frame(payload: Seq<u64>) -> Seq<u64> {
    seq![frame_table_word(payload.len()), frame_root_word(payload.len())] + payload
}

/// Whether `w` is such a frame.
pub open spec fn is_stream_frame(w: Seq<u64>) -> bool {
    &&& 3 <= w.len() <= MAX_FRAMED_PAYLOAD + 2
    &&& w[0] == frame_table_word((w.len() - 2) as nat)
    &&& w[1] == frame_root_word((w.len() - 2) as nat)
}

/// The payload of such a frame.
pub open spec fn frame_payload(w: Seq<u64>) -> Seq<u64> {
    w.subrange(2, w.len() as int)
}

/// The payload that a Cap'n Proto stream frame holds, if `words` is one.
pub uninterp spec fn capnp_unframe(words: Seq<u64>) -> Option<Seq<u64>>;

/// A frame is recognised as one, and gives back its payload.
pub proof fn lemma_frame_round_trip(payload: Seq<u64>)
    requires
        1 <= payload.len() <= MAX_FRAMED_PAYLOAD,
    ensures
        is_stream_frame(stream_frame(payload)),
        frame_payload(stream_frame(payload)) == payload,
        stream_frame(payload).len() == payload.len() + 2,
{
    let w = stream_frame(payload);
    assert((w.len() - 2) as nat == payload.len());
    assert(frame_payload(w) =~= payload);
}

/// Relies on capnp::serialize::write_message_to_words: writes a message whose
/// root is a `List(UInt64)` holding `payload`, in the standard stream framing.
/// The builder's first segment holds 1024 words, so the pointer and the list
/// share one segment. The bytes, a whole number of words, are read as
/// little-endian words.
#[verifier::external_body]
pub(crate) fn frame(payload: &Vec<u64>) -> (r: Vec<u64>)
    requires
        1 <= payload@.len() <= MAX_FRAMED_PAYLOAD,
    ensures
        r@ == stream_frame(payload@),
{
    let mut message = capnp::message::Builder::new_default();
    let mut list = message.initn_root::<capnp::primitive_list::Builder<u64>>(payload.len() as u32);
    for (i, w) in payload.iter().enumerate() {
        list.set(i as u32, *w);
    }
    let bytes = capnp::serialize::write_message_to_words(&message);
    bytes.chunks_exact(8).map(|c| u64::from_le_bytes([c[0], c[1], c[2], c[3], c[4], c[5], c[6], c[7]])).collect()
}

/// Relies on capnp::serialize::read_message_from_flat_slice and on reading
/// the root as a `List(UInt64)`: the payload of the frame, or `None` where
/// either fails. The words are laid out as little-endian bytes in a buffer of
/// capnp words, which keeps the alignment the reader asks for.
#[verifier::external_body]
pub(crate) fn unframe(words: &Vec<u64>) -> (r: Option<Vec<u64>>)
    ensures
        r is None <==> capnp_unframe(words@) is None,
        r matches Some(p) ==> capnp_unframe(words@) == Some(p@),
        is_stream_frame(words@) ==> r is Some,
        r matches Some(p) ==> (is_stream_frame(words@) ==> p@ == frame_payload(words@)),
{
    let mut buf = capnp::Word::allocate_zeroed_vec(words.len());
    for (c, w) in capnp::Word::words_to_bytes_mut(&mut buf).chunks_exact_mut(8).zip(words) {
        c.copy_from_slice(&w.to_le_bytes());
    }
    let mut slice = capnp::Word::words_to_bytes(&buf);
    let reader = capnp::serialize::read_message_from_flat_slice(&mut slice, Default::default()).ok()?;
    let list = reader.get_root::<capnp::primitive_list::Reader<u64>>().ok()?;
    Some(list.iter().collect())
}

} // verus!
