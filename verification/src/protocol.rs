//! Two-phase size-then-convert protocol.
//!
//! Each conversion direction first asks the external transcoding engine for
//! the exact output size, allocates a buffer of that size, then asks the
//! engine to fill it. The engine calls themselves stand outside the
//! library; the decisions around them — metadata encoding, allocation,
//! the zero-size short circuit, and what to make of the engine's status —
//! are verified here.

use vstd::prelude::*;

verus! {

/// Outcome of one boundary call.
#[derive(Clone, Copy, PartialEq, Eq, Structural, Debug)]
pub enum Status {
    Success,
    Error,
}

/// The status a boundary return code denotes: zero always means failure.
pub fn status_of_code(code: i32) -> (s: Status)
    ensures
        s is Success <==> code != 0,
{
    if code == 0 {
        Status::Error
    } else {
        Status::Success
    }
}

/// Whether a metadata byte sequence is free of the terminator byte, so that
/// its null-terminated form is unambiguous.
pub open spec fn terminator_free(m: Seq<u8>) -> bool {
    forall|i: int| 0 <= i < m.len() ==> m[i] != 0
}

/// The null-terminated form under which metadata crosses the boundary, or
/// nothing where the caller's bytes already hold an embedded terminator.
pub open spec fn spec_terminated_metadata(m: Seq<u8>) -> Option<Seq<u8>> {
    if terminator_free(m) {
        Some(m.push(0u8))
    } else {
        None
    }
}

/// Convert caller metadata to its null-terminated boundary form. The
/// conversion fails if and only if the bytes already contain an embedded
/// terminator; absent metadata is the zero-length sequence and always
/// converts. The engine-visible length of the result is its length less
/// one, the caller's own byte count.
pub fn terminated_metadata(m: &Vec<u8>) -> (r: Option<Vec<u8>>)
    ensures
        (match r {
            Some(t) => spec_terminated_metadata(m@) == Some(t@),
            None => spec_terminated_metadata(m@) is None,
        }),
        r is Some <==> terminator_free(m@),
{
    let mut i: usize = 0;
    while i < m.len()
        invariant
            0 <= i <= m@.len(),
            forall|j: int| 0 <= j < i ==> m@[j] != 0,
        decreases m@.len() - i,
    {
        if m[i] == 0 {
            return None;
        }
        i += 1;
    }
    let mut t: Vec<u8> = Vec::new();
    let mut k: usize = 0;
    while k < m.len()
        invariant
            0 <= k <= m@.len(),
            t@ =~= m@.subrange(0, k as int),
        decreases m@.len() - k,
    {
        t.push(m[k]);
        k += 1;
    }
    t.push(0);
    Some(t)
}

/// A zero-initialized output buffer of exactly the engine's size estimate.
pub fn zeroed_buffer(size: usize) -> (r: Vec<u8>)
    ensures
        r@.len() == size,
        forall|i: int| 0 <= i < size ==> r@[i] == 0,
{
    let mut b: Vec<u8> = Vec::new();
    let mut k: usize = 0;
    while k < size
        invariant
            0 <= k <= size,
            b@.len() == k,
            forall|i: int| 0 <= i < k ==> b@[i] == 0,
        decreases size - k,
    {
        b.push(0);
        k += 1;
    }
    b
}

/// Decode-side size phase. A zero size estimate signals unrecoverable
/// input and yields no buffer, so the conversion entry point cannot be
/// invoked at all; any other estimate yields the zeroed buffer the
/// conversion call is to fill in full.
pub fn plan_decode(size: usize) -> (r: Option<Vec<u8>>)
    ensures
        r is Some <==> size != 0,
        r matches Some(b) ==> b@.len() == size && (forall|i: int| 0 <= i < size ==> b@[i] == 0),
{
    if size == 0 {
        None
    } else {
        Some(zeroed_buffer(size))
    }
}

/// Encode-side finish. On failure the operation produces no result — never
/// a partially filled buffer. On success the buffer is shrunk to the used
/// length the engine stored back, which can only discard bytes, never
/// invent them.
pub fn finish_encode(buffer: Vec<u8>, status: Status, used: usize) -> (r: Option<Vec<u8>>)
    ensures
        r is Some <==> status is Success,
        status is Success && used <= buffer@.len() ==> r.unwrap()@ == buffer@.subrange(
            0,
            used as int,
        ),
        status is Success && used > buffer@.len() ==> r.unwrap()@ == buffer@,
        r matches Some(v) ==> v@.len() <= buffer@.len(),
{
    match status {
        Status::Error => None,
        Status::Success => {
            let mut b = buffer;
            b.truncate(used);
            Some(b)
        },
    }
}

/// Decode-side finish. On failure the operation produces no result; on
/// success the buffer, used in full, is the result — the engine fills it
/// exactly to the pre-computed size, so no shrinking step exists here.
pub fn finish_decode(buffer: Vec<u8>, status: Status) -> (r: Option<Vec<u8>>)
    ensures
        r is Some <==> status is Success,
        status is Success ==> r.unwrap()@ == buffer@,
{
    match status {
        Status::Error => None,
        Status::Success => Some(buffer),
    }
}

/// The compressed container's four leading signature bytes, `wOF2`.
pub open spec fn spec_has_signature(s: Seq<u8>) -> bool {
    s.len() >= 4 && s[0] == 0x77u8 && s[1] == 0x4fu8 && s[2] == 0x46u8 && s[3] == 0x32u8
}

/// Whether a buffer begins with the compressed container's four-byte
/// signature `wOF2`; producing any other leading bytes on encode is a
/// defect of the engine.
pub fn has_woff2_signature(b: &Vec<u8>) -> (r: bool)
    ensures
        r == spec_has_signature(b@),
{
    b.len() >= 4 && b[0] == 0x77 && b[1] == 0x4f && b[2] == 0x46 && b[3] == 0x32
}

/// Law: the encode-side shrink step cannot disturb the container
/// signature. Whatever leading bytes the engine wrote survive a shrink to
/// any used length of at least four, so a successful encode result bears
/// the signature exactly where the engine put it in the buffer.
pub proof fn lemma_shrink_preserves_signature(buffer: Seq<u8>, used: int)
    requires
        4 <= used <= buffer.len(),
        spec_has_signature(buffer),
    ensures
        spec_has_signature(buffer.subrange(0, used)),
{
}

/// Law: absent metadata, modeled as the zero-length sequence, always
/// converts, and its boundary form is the terminator byte alone — an
/// engine-visible length of zero, so the size-estimation call it leads to
/// is the very call an explicitly zero-length metadata sequence leads to.
pub proof fn lemma_empty_metadata_converts()
    ensures
        spec_terminated_metadata(Seq::<u8>::empty()) is Some,
        spec_terminated_metadata(Seq::<u8>::empty()) == Some(seq![0u8]),
        spec_terminated_metadata(Seq::<u8>::empty()).unwrap().len() - 1 == 0,
{
}

} // verus!
