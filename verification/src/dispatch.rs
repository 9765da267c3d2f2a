//! The offset-probing dispatcher: bounds-checks a fixed pair of candidate
//! offsets inside one frame, in priority order, and converts the first
//! accepted signature into a pass verdict; everything else drops.

use vstd::prelude::*;
use vstd::slice::slice_subrange;
use crate::signature::{analyze_packet, spec_validate, SIGNATURE_LEN};

verus! {

/// Transport-encapsulated candidate offset: link-layer, network and transport
/// headers precede the signature region.
pub const UDP_OFFSET: usize = 42;

/// Link-layer-only candidate offset: only the link-layer header precedes the
/// signature region.
pub const ETH_OFFSET: usize = 14;

/// The outcome of one admission decision; produced fresh per frame, never
/// persisted.
#[derive(Clone, Copy, Debug, PartialEq, Eq, Structural)]
pub enum Verdict {
    Pass,
    Drop,
}

/// The fixed-length candidate region at `offset` lies entirely within the frame.
pub open spec fn candidate_in_bounds(frame: Seq<u8>, offset: int) -> bool {
    0 <= offset && offset + SIGNATURE_LEN <= frame.len()
}

/// The candidate region at `offset` is in bounds and carries a valid signature.
pub open spec fn candidate_accepts(frame: Seq<u8>, offset: int) -> bool {
    candidate_in_bounds(frame, offset) && spec_validate(
        frame.subrange(offset, offset + SIGNATURE_LEN),
    )
}

/// The candidate offset the frame is admitted on, in priority order:
/// the transport-encapsulated offset wins over the link-layer-only one.
/// `None` when no candidate accepts.
pub open spec fn matched_offset(frame: Seq<u8>) -> Option<usize> {
    if candidate_accepts(frame, UDP_OFFSET as int) {
        Some(UDP_OFFSET)
    } else if candidate_accepts(frame, ETH_OFFSET as int) {
        Some(ETH_OFFSET)
    } else {
        None
    }
}

/// The verdict for a frame: pass exactly when some candidate region is in
/// bounds and carries a valid signature, drop otherwise (fail-closed).
pub open spec fn spec_decide(frame: Seq<u8>) -> Verdict {
    if matched_offset(frame) is Some {
        Verdict::Pass
    } else {
        Verdict::Drop
    }
}

/// A frame passes exactly when the transport-encapsulated candidate or,
/// failing that, the link-layer-only candidate is in bounds and carries a
/// valid signature; with no accepting candidate the verdict is a drop.
pub proof fn lemma_decide_characterization(frame: Seq<u8>)
    ensures
        (spec_decide(frame) == Verdict::Pass) <==> (candidate_accepts(frame, UDP_OFFSET as int)
            || candidate_accepts(frame, ETH_OFFSET as int)),
        (spec_decide(frame) == Verdict::Drop) <==> !(candidate_accepts(frame, UDP_OFFSET as int)
            || candidate_accepts(frame, ETH_OFFSET as int)),
{
}

/// The decision is a pure function of the frame's bytes: two frames with
/// identical contents validate identically, match the same candidate offset
/// and receive the same verdict, however often they are presented.
pub proof fn lemma_decision_pure(a: Seq<u8>, b: Seq<u8>)
    requires
        a == b,
    ensures
        spec_validate(a) == spec_validate(b),
        matched_offset(a) == matched_offset(b),
        spec_decide(a) == spec_decide(b),
{
}

/// Priority of the candidate offsets: whenever the transport-encapsulated
/// candidate accepts, the match is attributed to it, even if the
/// link-layer-only candidate would accept as well.
pub proof fn lemma_transport_priority(frame: Seq<u8>)
    requires
        candidate_accepts(frame, UDP_OFFSET as int),
    ensures
        matched_offset(frame) == Some(UDP_OFFSET),
        spec_decide(frame) == Verdict::Pass,
{
}

/// A frame too short to contain even the link-layer-only candidate region,
/// the empty frame included, leaves every candidate out of bounds and is
/// dropped without any region ever being formed.
pub proof fn lemma_undersized_frame_drops(frame: Seq<u8>)
    requires
        frame.len() < ETH_OFFSET + SIGNATURE_LEN,
    ensures
        matched_offset(frame) is None,
        spec_decide(frame) == Verdict::Drop,
{
}

/// Bounds-checked constructor of the fixed-length candidate view at `offset`:
/// yields the region only when it lies entirely within the frame, so no call
/// site can read past the frame's end.
pub fn extract_payload(frame: &[u8], offset: usize) -> (payload: Option<&[u8]>)
    ensures
        match payload {
            Some(region) => candidate_in_bounds(frame@, offset as int) && region@
                == frame@.subrange(offset as int, offset as int + SIGNATURE_LEN),
            None => !candidate_in_bounds(frame@, offset as int),
        },
{
    if offset <= frame.len() && SIGNATURE_LEN <= frame.len() - offset {
        Some(slice_subrange(frame, offset, offset + SIGNATURE_LEN))
    } else {
        None
    }
}

/// Probes the candidate offsets in priority order and reports the first one
/// whose region is in bounds and accepted; `None` when every candidate is out
/// of bounds or rejected.
pub fn probe_frame(frame: &[u8]) -> (matched: Option<usize>)
    ensures
        matched == matched_offset(frame@),
{
    if let Some(payload) = extract_payload(frame, UDP_OFFSET) {
        if analyze_packet(payload) {
            return Some(UDP_OFFSET);
        }
    }
    if let Some(payload) = extract_payload(frame, ETH_OFFSET) {
        if analyze_packet(payload) {
            return Some(ETH_OFFSET);
        }
    }
    None
}

/// Decides admission for one frame: pass exactly when a candidate region
/// accepts, drop in every other case, a truncated or empty frame included.
pub fn decide(frame: &[u8]) -> (verdict: Verdict)
    ensures
        verdict == spec_decide(frame@),
{
    match probe_frame(frame) {
        Some(_) => Verdict::Pass,
        None => Verdict::Drop,
    }
}

} // verus!
