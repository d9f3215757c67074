//! The fixed-length owner address, held as its raw bytes, together with the
//! base58 parser that turns an owner string into one.

use vstd::prelude::*;

use crate::codecs::base58_decode;
use crate::codecs::base58_decoded;

verus! {

/// The number of bytes in an account address.
pub const PUBKEY_BYTES: usize = 32;

/// A fixed-length account address: exactly 32 raw bytes.
#[derive(Clone, Debug, PartialEq, Eq, Hash)]
pub struct Pubkey {
    bytes: Vec<u8>,
}

impl View for Pubkey {
    type V = Seq<u8>;

    closed spec fn view(&self) -> Seq<u8> {
        self.bytes@
    }
}

/// What parsing an owner string yields: the 32 decoded bytes where the
/// string is the base58 form of exactly 32 bytes, nothing otherwise.
pub open spec fn spec_parse_pubkey(s: Seq<char>) -> Option<Seq<u8>> {
    match base58_decoded(s) {
        Some(v) => if v.len() == PUBKEY_BYTES { Some(v) } else { None },
        None => None,
    }
}

impl Pubkey {
    /// An address is well formed when it holds exactly 32 bytes.
    pub open spec fn wf(&self) -> bool {
        self@.len() == PUBKEY_BYTES
    }

    /// Parse a base58 owner-address string. Fails on any string that is not
    /// the base58 form of exactly 32 bytes: a malformed string, or one that
    /// decodes to the wrong length.
    pub fn parse(s: &str) -> (r: Option<Pubkey>)
        ensures
            r is Some <==> spec_parse_pubkey(s@) is Some,
            r matches Some(p) ==> Some(p@) == spec_parse_pubkey(s@) && p.wf(),
    {
        match base58_decode(s) {
            None => None,
            Some(v) => {
                if v.len() == PUBKEY_BYTES {
                    Some(Pubkey { bytes: v })
                } else {
                    None
                }
            },
        }
    }

    /// The raw bytes of the address.
    pub fn as_bytes(&self) -> (r: &Vec<u8>)
        ensures
            r@ == self@,
    {
        &self.bytes
    }
}

} // verus!
