//! Compression-backend adapter.
//!
//! Presents the backend under the fixed entry-point shape the transcoding
//! engine invokes: primitive tunables, nullable spans, an in/out capacity,
//! and a success flag. Addresses crossing the boundary are modeled as
//! `Option` values (`None` stands for a null address), and the bytes a call
//! writes come back as the result together with the used length that would
//! be stored through the length address.

use vstd::prelude::*;

use crate::backend::{
    backend_compress, backend_compressed, backend_decompress, backend_decoded, mode_tag, Mode,
};

verus! {

/// The mode a small-integer boundary code denotes: 1 selects the text mode
/// and 2 the font mode; every other code falls back to the generic mode
/// rather than failing.
pub open spec fn spec_mode_of_code(code: int) -> Mode {
    if code == 1 {
        Mode::Text
    } else if code == 2 {
        Mode::Font
    } else {
        Mode::Generic
    }
}

/// Decode a boundary mode code, tolerating unrecognized values.
pub fn mode_of_code(code: i32) -> (m: Mode)
    ensures
        m == spec_mode_of_code(code as int),
{
    if code == 1 {
        Mode::Text
    } else if code == 2 {
        Mode::Font
    } else {
        Mode::Generic
    }
}

/// Keep a backend result only where it fits the declared capacity of the
/// caller's output span; the bytes themselves pass through unchanged.
pub fn fit_to_capacity(bytes: Vec<u8>, capacity: usize) -> (r: Option<Vec<u8>>)
    ensures
        r is Some <==> bytes@.len() <= capacity,
        r matches Some(v) ==> v@ == bytes@,
{
    if bytes.len() <= capacity {
        Some(bytes)
    } else {
        None
    }
}

/// Compression entry point
/// `(quality, window, mode, input_len, input_addr, *output_len, output_addr)`
/// on the safe side of the boundary.
///
/// `input` carries the input span (`None`: null input address), `capacity`
/// the value behind the in/out length address (`None`: that address is
/// null), and `output_present` whether the output address is non-null; the
/// output span's prior contents never matter, so they are not modeled. On
/// success the result holds exactly the bytes written, and its length is
/// the used length stored back through the length address; on failure
/// nothing is returned and no partial output can be observed.
pub fn compress_entry(
    quality: i32,
    lgwin: i32,
    mode_code: i32,
    input: Option<&Vec<u8>>,
    capacity: Option<usize>,
    output_present: bool,
) -> (r: Option<Vec<u8>>)
    ensures
        input is None || capacity is None || !output_present ==> r is None,
        r is Some <==> {
            &&& input is Some
            &&& capacity is Some
            &&& output_present
            &&& backend_compressed(
                quality as int,
                lgwin as int,
                mode_tag(spec_mode_of_code(mode_code as int)),
                input.unwrap()@,
            ) matches Some(c) && c.len() <= capacity.unwrap()
        },
        r matches Some(v) ==> {
            &&& backend_compressed(
                quality as int,
                lgwin as int,
                mode_tag(spec_mode_of_code(mode_code as int)),
                input.unwrap()@,
            ) == Some(v@)
            &&& v@.len() <= capacity.unwrap()
        },
{
    let input = match input {
        Some(i) => i,
        None => {
            return None;
        },
    };
    let capacity = match capacity {
        Some(c) => c,
        None => {
            return None;
        },
    };
    if !output_present {
        return None;
    }
    let mode = mode_of_code(mode_code);
    match backend_compress(quality, lgwin, mode, input) {
        Some(bytes) => fit_to_capacity(bytes, capacity),
        None => None,
    }
}

/// Decompression entry point
/// `(input_len, input_addr, *output_len, output_addr)` on the safe side of
/// the boundary, with the same modeling of nullable addresses as
/// [`compress_entry`].
///
/// Either the whole input decodes into the declared capacity, or the call
/// reports failure and returns nothing; no partial success exists.
pub fn decompress_entry(
    input: Option<&Vec<u8>>,
    capacity: Option<usize>,
    output_present: bool,
) -> (r: Option<Vec<u8>>)
    ensures
        input is None || capacity is None || !output_present ==> r is None,
        r is Some <==> {
            &&& input is Some
            &&& capacity is Some
            &&& output_present
            &&& backend_decoded(input.unwrap()@) matches Some(d) && d.len() <= capacity.unwrap()
        },
        r matches Some(v) ==> {
            &&& backend_decoded(input.unwrap()@) == Some(v@)
            &&& v@.len() <= capacity.unwrap()
        },
{
    let input = match input {
        Some(i) => i,
        None => {
            return None;
        },
    };
    let capacity = match capacity {
        Some(c) => c,
        None => {
            return None;
        },
    };
    if !output_present {
        return None;
    }
    match backend_decompress(input) {
        Some(bytes) => fit_to_capacity(bytes, capacity),
        None => None,
    }
}

} // verus!
