//! Properties of failure bounding that span its operations.
use super::error_limits::{
    bounded_as, bounding_result, bounding_verdict, boundary_at_most, cut_down_as, no_owned_buffers, retained_within, compacted, fits, measure, DIAGNOSTIC_KEEP, DIAGNOSTIC_LIMIT, MAX_ERROR_BYTES,
};
use super::comparison::err_eq;
use super::AgentError;
use crate::text::blen;
use vstd::layout::size_of;
use vstd::prelude::*;
use vstd::utf8::{decode_utf8, encode_utf8, is_char_boundary, valid_utf8};

verus! {

proof fn lemma_encode_concat(a: Seq<char>, b: Seq<char>)
    ensures
        encode_utf8(a + b) == encode_utf8(a) + encode_utf8(b),
    decreases a.len(),
{
    if a.len() == 0 {
        assert(a + b == b);
        assert(Seq::<u8>::empty() + encode_utf8(b) == encode_utf8(b));
    } else {
        assert((a + b).drop_first() == a.drop_first() + b);
        assert((a + b)[0] == a[0]);
        lemma_encode_concat(a.drop_first(), b);
        assert(encode_utf8(a + b) == vstd::utf8::encode_scalar(a[0] as u32) + encode_utf8(a.drop_first() + b));
    }
}

proof fn lemma_boundary(b: Seq<u8>, k: int)
    requires
        valid_utf8(b),
        k >= 0,
    ensures
        is_char_boundary(b, boundary_at_most(b, k)),
        0 <= boundary_at_most(b, k) <= k,
        boundary_at_most(b, k) <= b.len(),
    decreases k,
{
    vstd::utf8::is_char_boundary_start_end_of_seq(b);
    if k > 0 && !is_char_boundary(b, k) {
        lemma_boundary(b, k - 1);
    }
}

/// A compacted diagnostic fits 4 KiB, a diagnostic that already fits is kept
/// unchanged, and a cut one keeps a prefix of the original text, cut between
/// characters, followed by the truncation marker.
pub proof fn law_compacted_fits(t: Seq<char>)
    ensures
        blen(compacted(t)) <= DIAGNOSTIC_LIMIT,
        blen(t) <= DIAGNOSTIC_LIMIT ==> compacted(t) == t,
        blen(t) > DIAGNOSTIC_LIMIT ==> exists|k: int|
            0 <= k <= t.len() && compacted(t) == t.take(k) + " [diagnostic truncated]"@,
{
    if blen(t) > DIAGNOSTIC_LIMIT {
        let b = encode_utf8(t);
        vstd::utf8::encode_utf8_valid_utf8(t);
        let e = boundary_at_most(b, DIAGNOSTIC_KEEP as int);
        lemma_boundary(b, DIAGNOSTIC_KEEP as int);
        let sub = b.subrange(0, e);
        vstd::utf8::valid_utf8_split(b, e);
        vstd::utf8::decode_utf8_encode_utf8(sub);
        let head = decode_utf8(sub);
        let marker = " [diagnostic truncated]"@;
        reveal_strlit(" [diagnostic truncated]");
        assert(vstd::utf8::is_ascii_chars(marker));
        vstd::utf8::is_ascii_chars_encode_utf8(marker);
        lemma_encode_concat(head, marker);
        assert(encode_utf8(compacted(t)).len() == e + 23);
        vstd::utf8::decode_utf8_split(b, e);
        vstd::utf8::encode_utf8_decode_utf8(t);
        let rest = decode_utf8(b.subrange(e, b.len() as int));
        assert(t == head + rest);
        assert(t.take(head.len() as int) == head);
        assert(compacted(t) == t.take(head.len() as int) + marker);
    }
}

/// Bounding leaves an error within the bounds, and bounding it again is still a
/// bounding of the original. An error that owns no buffer is kept exactly when
/// it fits, and a bounded error that owns none is kept by a second bounding; a
/// cut-down error stays cut down to the same variant and text. Whether an error
/// that fits by length but owns buffers is kept again rests on the spare
/// allocation a second check reads, which the allocator decides and nothing here
/// ties to the first. Verus knows no layout of `AgentError`, so the law takes as
/// given that its slot and a 4 KiB diagnostic fit the 1 MiB bound.
pub proof fn law_bounded_errors_fit(e: AgentError, r: AgentError, again: AgentError)
    requires
        size_of::<AgentError>() + DIAGNOSTIC_LIMIT <= MAX_ERROR_BYTES,
        bounded_as(e, r),
        bounded_as(r, again),
    ensures
        fits(r),
        bounded_as(e, again),
        no_owned_buffers(e) && fits(e) ==> r == e,
        no_owned_buffers(r) ==> again == r,
        cut_down_as(e, r) ==> cut_down_as(e, again),
{
    let s1 = choose|spare: int| #[trigger] bounding_verdict(e, r, spare);
    let s2 = choose|spare: int| #[trigger] bounding_verdict(r, again, spare);
    if cut_down_as(e, r) {
        match e {
            AgentError::Configuration(t) | AgentError::Unsupported(t) | AgentError::InvalidInput(t)
            | AgentError::Protocol(t) | AgentError::Transport(t) => {
                law_compacted_fits(t@);
                law_compacted_fits(compacted(t@));
            },
            _ => {},
        }
        assert(measure(r).nodes == 1 && measure(r).height == 1);
        assert(fits(r));
        assert(cut_down_as(e, again));
    }
    if retained_within(e, s1) {
        assert(r == e);
        assert(retained_within(r, 0));
        assert(fits(r));
        if retained_within(r, s2) {
            assert(bounding_verdict(e, again, s1));
        } else {
            assert(bounding_verdict(e, again, s2));
        }
    } else {
        assert(cut_down_as(e, again));
        assert(bounding_verdict(e, again, s1));
    }
    if no_owned_buffers(e) && fits(e) {
        assert(retained_within(e, 0));
    }
    if no_owned_buffers(r) {
        assert(retained_within(r, 0));
    }
}

/// For one spare allocation, bounding settles: bounding a bounded error again
/// gives it back unchanged in content, and a kept error is kept as it is. A text
/// failure cut down once keeps its variant and its compacted text, which already
/// fits 4 KiB, and every other cut-down error is the bare diagnostic limit.
pub proof fn law_bounding_settles(e: AgentError, r: AgentError, again: AgentError, spare: int)
    requires
        bounding_result(e, r, spare),
        bounding_result(r, again, spare),
    ensures
        err_eq(again, r),
        retained_within(e, spare) ==> again == r,
        !(r is Configuration || r is Unsupported || r is InvalidInput || r is Protocol || r is Transport) ==> again == r,
{
    if !retained_within(e, spare) && !retained_within(r, spare) {
        match e {
            AgentError::Configuration(t) | AgentError::Unsupported(t) | AgentError::InvalidInput(t)
            | AgentError::Protocol(t) | AgentError::Transport(t) => {
                law_compacted_fits(t@);
                law_compacted_fits(compacted(t@));
            },
            _ => {},
        }
    }
}

/// Whatever bounding read from the allocator, it either keeps an error or cuts it
/// down: an error that owns no buffer and fits is kept as it is, and one that does
/// not fit is always cut down.
pub proof fn law_bounding_keeps_or_cuts(e: AgentError, r: AgentError)
    requires
        bounded_as(e, r),
    ensures
        r == e || cut_down_as(e, r),
        no_owned_buffers(e) && fits(e) ==> r == e,
        !fits(e) ==> cut_down_as(e, r),
{
    let s = choose|spare: int| #[trigger] bounding_verdict(e, r, spare);
    if no_owned_buffers(e) && fits(e) {
        assert(retained_within(e, 0));
    }
}

} // verus!
