//! Trusted boundary to the compression backend.
//!
//! The entropy coder is an outside component. The two wrappers here hand it
//! byte buffers and name what it returns; everything else in the crate is
//! verified against these contracts.

use vstd::prelude::*;

use brotli::enc::backward_references::BrotliEncoderMode;
use brotli::enc::BrotliEncoderParams;

verus! {

/// Mode selector forwarded to the compression backend.
#[derive(Clone, Copy, PartialEq, Eq, Structural, Debug)]
pub enum Mode {
    Generic,
    Text,
    Font,
}

/// The small-integer tag under which a mode crosses the boundary.
pub open spec fn mode_tag(m: Mode) -> int {
    match m {
        Mode::Generic => 0,
        Mode::Text => 1,
        Mode::Font => 2,
    }
}

/// What the backend compressor returns for the given tunables and input
/// bytes: the whole compressed stream, or nothing where the compressor
/// reports an internal failure. The outcome is a function of the arguments
/// alone.
pub uninterp spec fn backend_compressed(
    quality: int,
    lgwin: int,
    mode: int,
    input: Seq<u8>,
) -> Option<Seq<u8>>;

/// What the backend decompressor returns for the given input bytes: the
/// whole decoded stream, or nothing where the input does not begin with one
/// complete, well-formed compressed stream. The outcome is a function of
/// the input alone.
pub uninterp spec fn backend_decoded(input: Seq<u8>) -> Option<Seq<u8>>;

/// Relies on `brotli::BrotliCompress`: reading from a byte slice and
/// writing into a growable vector, it produces the whole compressed stream
/// or reports an error; both the bytes and the outcome depend on the
/// tunables and the input alone (out-of-range quality and window values
/// are clamped internally, never rejected, and a slice read and a vector
/// write cannot themselves fail).
#[verifier::external_body]
pub(crate) fn backend_compress(quality: i32, lgwin: i32, mode: Mode, input: &Vec<u8>) -> (r: Option<
    Vec<u8>,
>)
    ensures
        (match r {
            Some(v) => backend_compressed(
                quality as int,
                lgwin as int,
                mode_tag(mode),
                input@,
            ) == Some(v@),
            None => backend_compressed(quality as int, lgwin as int, mode_tag(mode), input@)
                is None,
        }),
{
    let backend_mode = match mode {
        Mode::Generic => BrotliEncoderMode::BROTLI_MODE_GENERIC,
        Mode::Text => BrotliEncoderMode::BROTLI_MODE_TEXT,
        Mode::Font => BrotliEncoderMode::BROTLI_MODE_FONT,
    };
    let params = BrotliEncoderParams { quality, lgwin, mode: backend_mode, ..Default::default() };
    let mut out: Vec<u8> = Vec::new();
    match brotli::BrotliCompress(&mut input.as_slice(), &mut out, &params) {
        Ok(_) => Some(out),
        Err(_) => None,
    }
}

/// Relies on `brotli::BrotliDecompress`: reading from a byte slice and
/// writing into a growable vector, it either decodes one complete
/// compressed stream in full or reports an error; both the bytes and the
/// outcome depend on the input alone (a slice read and a vector write
/// cannot themselves fail).
#[verifier::external_body]
pub(crate) fn backend_decompress(input: &Vec<u8>) -> (r: Option<Vec<u8>>)
    ensures
        (match r {
            Some(v) => backend_decoded(input@) == Some(v@),
            None => backend_decoded(input@) is None,
        }),
{
    let mut out: Vec<u8> = Vec::new();
    match brotli::BrotliDecompress(&mut input.as_slice(), &mut out) {
        Ok(()) => Some(out),
        Err(_) => None,
    }
}

} // verus!
