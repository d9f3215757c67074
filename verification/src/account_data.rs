//! The multi-encoding account-data container: legacy base58 strings, tagged
//! base58 / base64 / base64+zstd blobs, and the structured form whose bytes
//! are no longer recoverable; together with byte recovery and size
//! introspection over it.

use vstd::prelude::*;

use crate::codecs::base58_decode;
use crate::codecs::base58_decoded;
use crate::codecs::base58_encode;
use crate::codecs::base64_decode;
use crate::codecs::base64_decoded;
use crate::codecs::base64_encode;
use crate::codecs::zstd_compress;
use crate::codecs::zstd_compressed;
use crate::codecs::zstd_decompress;
use crate::codecs::zstd_decompressed;

verus! {

#[verifier::external_type_specification]
#[verifier::external_body]
pub struct ExValue(serde_json::Value);

/// Relies on serde_json::Value's Clone implementation; nothing is claimed
/// of the copy.
pub assume_specification[ <serde_json::Value as Clone>::clone ](v: &serde_json::Value) -> serde_json::Value;

/// Identifies how an account's bytes are textually represented on the wire.
#[derive(Clone, Copy, Debug, PartialEq, Eq, Hash)]
pub enum UiAccountEncoding {
    /// Legacy tag, retained for RPC backwards compatibility; paired with a
    /// tagged blob it denotes a state with no recoverable byte form.
    Binary,
    Base58,
    Base64,
    JsonParsed,
    Base64Zstd,
}

/// An account whose bytes were replaced by a program-specific structured
/// interpretation: the interpreting program, the opaque parsed document this
/// layer never inspects, and the authoritative declared byte size.
#[derive(Clone, Debug, PartialEq, Eq)]
pub struct ParsedAccount {
    pub program: String,
    pub parsed: serde_json::Value,
    pub space: u64,
}

/// How an account's byte contents are currently expressed.
#[derive(Clone, Debug, PartialEq, Eq)]
pub enum UiAccountData {
    /// Legacy wire form: a bare base58 string, predating encoding tags.
    LegacyBinary(String),
    /// Structured form: the raw bytes are not recoverable.
    Json(ParsedAccount),
    /// Tagged form: an encoded blob paired with its encoding tag.
    Binary(String, UiAccountEncoding),
}

/// The bytes a container decodes to: nothing for the structured form and for
/// the `Binary` and `JsonParsed` tags, the base58 decoding for legacy and
/// base58-tagged blobs, the base64 decoding for base64-tagged blobs, and the
/// base64 decoding pushed through zstd decompression for base64+zstd blobs.
pub open spec fn spec_decoded_bytes(d: UiAccountData) -> Option<Seq<u8>> {
    match d {
        UiAccountData::Json(_) => None,
        UiAccountData::LegacyBinary(blob) => base58_decoded(blob@),
        UiAccountData::Binary(blob, encoding) => match encoding {
            UiAccountEncoding::Base58 => base58_decoded(blob@),
            UiAccountEncoding::Base64 => base64_decoded(blob@),
            UiAccountEncoding::Base64Zstd => match base64_decoded(blob@) {
                Some(z) => zstd_decompressed(z),
                None => None,
            },
            UiAccountEncoding::Binary => None,
            UiAccountEncoding::JsonParsed => None,
        },
    }
}

/// The size a container reports: the declared space for the structured form,
/// never recomputed; the decoded byte count for every other form, where the
/// bytes are recoverable.
pub open spec fn spec_data_size(d: UiAccountData) -> Option<nat> {
    match d {
        UiAccountData::Json(p) => Some(p.space as nat),
        _ => match spec_decoded_bytes(d) {
            Some(v) => Some(v.len()),
            None => None,
        },
    }
}

impl UiAccountData {
    /// Recover the account bytes, where the container's encoding makes them
    /// recoverable: fails on the structured form, on the `Binary` and
    /// `JsonParsed` tags, and on a malformed base58, base64 or compressed
    /// payload.
    pub fn decode(&self) -> (r: Option<Vec<u8>>)
        ensures
            r is Some <==> spec_decoded_bytes(*self) is Some,
            r matches Some(v) ==> Some(v@) == spec_decoded_bytes(*self),
    {
        match self {
            UiAccountData::Json(_) => None,
            UiAccountData::LegacyBinary(blob) => base58_decode(blob.as_str()),
            UiAccountData::Binary(blob, encoding) => match encoding {
                UiAccountEncoding::Base58 => base58_decode(blob.as_str()),
                UiAccountEncoding::Base64 => base64_decode(blob.as_str()),
                UiAccountEncoding::Base64Zstd => match base64_decode(blob.as_str()) {
                    Some(z) => zstd_decompress(z.as_slice()),
                    None => None,
                },
                UiAccountEncoding::Binary => None,
                UiAccountEncoding::JsonParsed => None,
            },
        }
    }

    /// The account's data size: the declared space for the structured form,
    /// else the decoded byte count, where decoding succeeds.
    pub fn space(&self) -> (r: Option<u64>)
        ensures
            r is Some <==> spec_data_size(*self) is Some,
            r matches Some(n) ==> Some(n as nat) == spec_data_size(*self),
    {
        match self {
            UiAccountData::Json(parsed) => Some(parsed.space),
            _ => match self.decode() {
                Some(v) => Some(v.len() as u64),
                None => None,
            },
        }
    }

    /// Whether this is the structured form.
    pub fn is_json_parsed(&self) -> (r: bool)
        ensures
            r == (*self is Json),
    {
        matches!(self, UiAccountData::Json(_))
    }

    /// The structured information, for the structured form only.
    pub fn as_parsed(&self) -> (r: Option<&ParsedAccount>)
        ensures
            r is Some <==> *self is Json,
            r matches Some(p) ==> *p == self->Json_0,
    {
        match self {
            UiAccountData::Json(parsed) => Some(parsed),
            _ => None,
        }
    }
}

/// Law: where the container is not structured and its bytes are recoverable,
/// the reported data size is exactly the decoded byte count.
pub proof fn lemma_data_size_matches_decoded(d: UiAccountData)
    requires
        !(d is Json),
    ensures
        spec_decoded_bytes(d) matches Some(v) ==> spec_data_size(d) == Some(v.len()),
{
}

/// Law: a structured container never yields bytes, and its reported size is
/// the declared space, whatever the parsed document holds.
pub proof fn lemma_structured_container(p: ParsedAccount)
    ensures
        spec_decoded_bytes(UiAccountData::Json(p)) is None,
        spec_data_size(UiAccountData::Json(p)) == Some(p.space as nat),
{
}

/// Law: a tagged blob whose tag is `Binary` or `JsonParsed` never decodes,
/// whatever the blob holds.
pub proof fn lemma_unrecoverable_tags_never_decode(blob: String)
    ensures
        spec_decoded_bytes(UiAccountData::Binary(blob, UiAccountEncoding::Binary)) is None,
        spec_decoded_bytes(UiAccountData::Binary(blob, UiAccountEncoding::JsonParsed)) is None,
{
}

/// Law: decoding a base64-tagged container built from the base64 encoding of
/// any byte sequence returns exactly that sequence.
pub fn base64_round_trip(bytes: &[u8]) -> (r: Option<Vec<u8>>)
    ensures
        r matches Some(v) && v@ == bytes@,
{
    let blob = base64_encode(bytes);
    let container = UiAccountData::Binary(blob, UiAccountEncoding::Base64);
    container.decode()
}

/// Law: decoding a legacy container built from the base58 encoding of any
/// byte sequence returns exactly that sequence.
pub fn base58_round_trip(bytes: &[u8]) -> (r: Option<Vec<u8>>)
    ensures
        r matches Some(v) && v@ == bytes@,
{
    let blob = base58_encode(bytes);
    let container = UiAccountData::LegacyBinary(blob);
    container.decode()
}

/// Law: for any byte sequence and any compression level, decoding a
/// base64+zstd container built from the base64-encoded compressed stream
/// succeeds exactly when the compressor yields output, and then returns
/// exactly the original sequence.
pub fn base64_zstd_round_trip(bytes: &[u8], level: i32) -> (r: Option<Vec<u8>>)
    ensures
        r is Some <==> zstd_compressed(bytes@, level as int) is Some,
        r matches Some(v) ==> v@ == bytes@,
{
    match zstd_compress(bytes, level) {
        None => None,
        Some(z) => {
            let blob = base64_encode(z.as_slice());
            let container = UiAccountData::Binary(blob, UiAccountEncoding::Base64Zstd);
            container.decode()
        },
    }
}

} // verus!
