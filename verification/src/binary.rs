//! The module-header discipline of the WebAssembly binary format.
//!
//! The engine model treats a module binary as opaque beyond its eight-byte
//! header: the `\0asm` magic number followed by the format version word.
//! `wf_binary` is the acceptance criterion of the model decoder; the full
//! structural validation of a binary is the external engine's concern.

use vstd::prelude::*;
use vstd::slice::slice_index_get;

verus! {

/// Why a byte sequence was rejected by the model decoder.
#[derive(Clone, Copy, PartialEq, Eq, Structural, Debug)]
pub enum DecodeError {
    /// Shorter than the eight-byte module header.
    Truncated,
    /// The first four bytes are not the `\0asm` magic number.
    BadMagic,
    /// The version word is not the supported version 1.
    UnsupportedVersion,
    /// The engine's parser rejected the binary: malformed beyond the
    /// header, or using an extension outside the enabled feature set.
    EngineRejected,
}

/// The magic number of a module binary: `\0asm`.
pub open spec fn has_magic(b: Seq<u8>) -> bool {
    &&& b[0] == 0x00u8
    &&& b[1] == 0x61u8
    &&& b[2] == 0x73u8
    &&& b[3] == 0x6du8
}

/// The little-endian version word 1, the only version the model accepts.
pub open spec fn has_supported_version(b: Seq<u8>) -> bool {
    &&& b[4] == 0x01u8
    &&& b[5] == 0x00u8
    &&& b[6] == 0x00u8
    &&& b[7] == 0x00u8
}

/// A byte sequence the model decoder accepts: long enough to carry the
/// module header, with the right magic number and a supported version.
pub open spec fn wf_binary(b: Seq<u8>) -> bool {
    &&& b.len() >= 8
    &&& has_magic(b)
    &&& has_supported_version(b)
}

/// The error the model decoder reports for a rejected byte sequence:
/// the first header defect, checked in header order.
pub open spec fn header_error(b: Seq<u8>) -> DecodeError {
    if b.len() < 8 {
        DecodeError::Truncated
    } else if !has_magic(b) {
        DecodeError::BadMagic
    } else {
        DecodeError::UnsupportedVersion
    }
}

/// When decoding succeeds: the bytes pass the header validation here,
/// and the engine's own parser — whose verdict only the binding layer
/// can observe — produced a usable module structure from them.
pub open spec fn decode_accepts(b: Seq<u8>, accepted: bool) -> bool {
    wf_binary(b) && accepted
}

/// The error decoding reports: the first header defect where validation
/// fails, else the engine's rejection.
pub open spec fn decode_error(b: Seq<u8>) -> DecodeError {
    if !wf_binary(b) {
        header_error(b)
    } else {
        DecodeError::EngineRejected
    }
}

/// Decides `wf_binary` over a byte slice, reporting the first header
/// defect of a rejected input.
pub fn check_header(bytes: &[u8]) -> (r: Result<(), DecodeError>)
    ensures
        r is Ok <==> wf_binary(bytes@),
        r matches Err(e) ==> !wf_binary(bytes@) && e == header_error(bytes@),
{
    if bytes.len() < 8 {
        return Err(DecodeError::Truncated);
    }
    let m0 = *slice_index_get(bytes, 0);
    let m1 = *slice_index_get(bytes, 1);
    let m2 = *slice_index_get(bytes, 2);
    let m3 = *slice_index_get(bytes, 3);
    if !(m0 == 0x00u8 && m1 == 0x61u8 && m2 == 0x73u8 && m3 == 0x6du8) {
        return Err(DecodeError::BadMagic);
    }
    let v0 = *slice_index_get(bytes, 4);
    let v1 = *slice_index_get(bytes, 5);
    let v2 = *slice_index_get(bytes, 6);
    let v3 = *slice_index_get(bytes, 7);
    if !(v0 == 0x01u8 && v1 == 0x00u8 && v2 == 0x00u8 && v3 == 0x00u8) {
        return Err(DecodeError::UnsupportedVersion);
    }
    Ok(())
}

} // verus!
