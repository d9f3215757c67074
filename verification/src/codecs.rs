//! Trusted bindings to the textual and compression codecs that the wire
//! encodings rely on. Each decoder's result is a function of its input alone,
//! so it is given a name that the library's contracts are stated over.

use std::io::Read;
use vstd::prelude::*;

verus! {

/// What bs58's Bitcoin-alphabet decoder returns for a string: the decoded
/// bytes, or nothing when the string is not well-formed base58.
pub uninterp spec fn base58_decoded(s: Seq<char>) -> Option<Seq<u8>>;

/// What base64's standard-alphabet, padded decoder returns for a string:
/// the decoded bytes, or nothing when the string is malformed.
pub uninterp spec fn base64_decoded(s: Seq<char>) -> Option<Seq<u8>>;

/// What zstd's streaming decompressor returns for a byte sequence: the
/// decompressed bytes, or nothing when the stream is corrupt.
pub uninterp spec fn zstd_decompressed(b: Seq<u8>) -> Option<Seq<u8>>;

/// What zstd's one-shot compressor returns for a byte sequence at a given
/// compression level: the compressed frame, or nothing when compression
/// fails.
pub uninterp spec fn zstd_compressed(b: Seq<u8>, level: int) -> Option<Seq<u8>>;

/// Relies on bs58's decoder (Bitcoin alphabet, no checksum): it fails exactly
/// on malformed input, and its result depends on the string alone.
#[verifier::external_body]
pub(crate) fn base58_decode(s: &str) -> (r: Option<Vec<u8>>)
    ensures
        r is Some <==> base58_decoded(s@) is Some,
        r matches Some(v) ==> Some(v@) == base58_decoded(s@),
{
    bs58::decode(s).into_vec().ok()
}

/// Relies on bs58's encoder: decoding what it produces returns the bytes
/// that were encoded.
#[verifier::external_body]
pub(crate) fn base58_encode(b: &[u8]) -> (r: String)
    ensures
        base58_decoded(r@) == Some(b@),
{
    bs58::encode(b).into_string()
}

/// Relies on base64's standard engine (standard alphabet, with padding): it
/// fails exactly on malformed input, and its result depends on the string
/// alone.
#[verifier::external_body]
pub(crate) fn base64_decode(s: &str) -> (r: Option<Vec<u8>>)
    ensures
        r is Some <==> base64_decoded(s@) is Some,
        r matches Some(v) ==> Some(v@) == base64_decoded(s@),
{
    base64::Engine::decode(&base64::prelude::BASE64_STANDARD, s).ok()
}

/// Relies on base64's standard engine: decoding what it produces returns the
/// bytes that were encoded.
#[verifier::external_body]
pub(crate) fn base64_encode(b: &[u8]) -> (r: String)
    ensures
        base64_decoded(r@) == Some(b@),
{
    base64::Engine::encode(&base64::prelude::BASE64_STANDARD, b)
}

/// Relies on zstd's streaming decoder, read to the end of the stream: it
/// fails exactly on a corrupt stream, and its result depends on the input
/// bytes alone.
#[verifier::external_body]
pub(crate) fn zstd_decompress(input: &[u8]) -> (r: Option<Vec<u8>>)
    ensures
        r is Some <==> zstd_decompressed(input@) is Some,
        r matches Some(v) ==> Some(v@) == zstd_decompressed(input@),
{
    let mut data = vec![];
    zstd::stream::read::Decoder::new(input)
        .and_then(|mut reader| reader.read_to_end(&mut data))
        .map(|_| data)
        .ok()
}

/// Relies on zstd's one-shot compressor: its result depends on the input
/// bytes and the compression level alone, and decompressing what it
/// produces returns the bytes that were compressed.
#[verifier::external_body]
pub(crate) fn zstd_compress(input: &[u8], level: i32) -> (r: Option<Vec<u8>>)
    ensures
        r is Some <==> zstd_compressed(input@, level as int) is Some,
        r matches Some(v) ==> Some(v@) == zstd_compressed(input@, level as int),
        r matches Some(v) ==> zstd_decompressed(v@) == Some(input@),
{
    zstd::stream::encode_all(input, level).ok()
}

} // verus!
