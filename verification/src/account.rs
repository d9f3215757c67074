//! The account snapshot received over the wire, and its reconstruction into
//! a concrete account value: a strict mode that needs recoverable bytes, and
//! a fallback mode that accepts the structured form with empty bytes.

use vstd::prelude::*;

use crate::account_data::ParsedAccount;
use crate::account_data::UiAccountData;
use crate::account_data::spec_decoded_bytes;
use crate::pubkey::Pubkey;
use crate::pubkey::spec_parse_pubkey;

verus! {

/// A capability for building a concrete account value out of its parts.
/// Implementors expose what the built value holds through the spec
/// observers, and `create` promises to store each part unchanged.
pub trait AccountFactory: Sized {
    /// The balance the built value holds.
    spec fn spec_lamports(&self) -> u64;

    /// The data bytes the built value holds.
    spec fn spec_data(&self) -> Seq<u8>;

    /// The owner address bytes the built value holds.
    spec fn spec_owner(&self) -> Seq<u8>;

    /// The executable flag the built value holds.
    spec fn spec_executable(&self) -> bool;

    /// The rent epoch the built value holds.
    spec fn spec_rent_epoch(&self) -> u64;

    /// Build an account value that stores each given part unchanged.
    fn create(lamports: u64, data: Vec<u8>, owner: Pubkey, executable: bool, rent_epoch: u64) -> (r:
        Self)
        ensures
            r.spec_lamports() == lamports,
            r.spec_data() == data@,
            r.spec_owner() == owner@,
            r.spec_executable() == executable,
            r.spec_rent_epoch() == rent_epoch,
    ;
}

/// A concrete account value: balance, raw data bytes, owner address,
/// executable flag and rent epoch.
#[derive(Clone, Debug, PartialEq, Eq)]
pub struct Account {
    pub lamports: u64,
    pub data: Vec<u8>,
    pub owner: Pubkey,
    pub executable: bool,
    pub rent_epoch: u64,
}

impl AccountFactory for Account {
    open spec fn spec_lamports(&self) -> u64 {
        self.lamports
    }

    open spec fn spec_data(&self) -> Seq<u8> {
        self.data@
    }

    open spec fn spec_owner(&self) -> Seq<u8> {
        self.owner@
    }

    open spec fn spec_executable(&self) -> bool {
        self.executable
    }

    open spec fn spec_rent_epoch(&self) -> u64 {
        self.rent_epoch
    }

    fn create(lamports: u64, data: Vec<u8>, owner: Pubkey, executable: bool, rent_epoch: u64) -> (r:
        Self) {
        Account { lamports, data, owner, executable, rent_epoch }
    }
}

/// A point-in-time representation of a stored account as the wire carries
/// it: metadata fields beside the multi-encoding data container.
#[derive(Clone, Debug, PartialEq, Eq)]
pub struct UiAccount {
    pub lamports: u64,
    pub data: UiAccountData,
    pub owner: String,
    pub executable: bool,
    pub rent_epoch: u64,
    pub space: Option<u64>,
}

impl UiAccount {
    /// Strict reconstruction: succeeds exactly when the container's bytes
    /// are recoverable and the owner string parses as an address, and then
    /// builds the account from the decoded bytes and the unchanged metadata.
    pub fn decode<T: AccountFactory>(&self) -> (r: Option<T>)
        ensures
            r is Some <==> (spec_decoded_bytes(self.data) is Some && spec_parse_pubkey(self.owner@)
                is Some),
            r matches Some(a) ==> a.spec_lamports() == self.lamports,
            r matches Some(a) ==> Some(a.spec_data()) == spec_decoded_bytes(self.data),
            r matches Some(a) ==> Some(a.spec_owner()) == spec_parse_pubkey(self.owner@),
            r matches Some(a) ==> a.spec_executable() == self.executable,
            r matches Some(a) ==> a.spec_rent_epoch() == self.rent_epoch,
    {
        let data = match self.data.decode() {
            Some(d) => d,
            None => {
                return None;
            },
        };
        let owner = match Pubkey::parse(self.owner.as_str()) {
            Some(p) => p,
            None => {
                return None;
            },
        };
        Some(T::create(self.lamports, data, owner, self.executable, self.rent_epoch))
    }

    /// Fallback reconstruction: still demands a well-formed owner address,
    /// and then builds the account from the decoded bytes where they are
    /// recoverable (flagged `false`), or from empty bytes where the
    /// container is the structured form (flagged `true`). A container whose
    /// bytes are unrecoverable for any other reason yields nothing.
    pub fn try_decode_with_fallback<T: AccountFactory>(&self) -> (r: Option<(T, bool)>)
        ensures
            r is Some <==> (spec_parse_pubkey(self.owner@) is Some && (spec_decoded_bytes(self.data)
                is Some || self.data is Json)),
            r matches Some(p) ==> p.1 == (spec_decoded_bytes(self.data) is None),
            r matches Some(p) ==> p.0.spec_lamports() == self.lamports,
            r matches Some(p) ==> Some(p.0.spec_owner()) == spec_parse_pubkey(self.owner@),
            r matches Some(p) ==> p.0.spec_executable() == self.executable,
            r matches Some(p) ==> p.0.spec_rent_epoch() == self.rent_epoch,
            r matches Some(p) ==> (spec_decoded_bytes(self.data) matches Some(v) ==> p.0.spec_data()
                == v),
            r matches Some(p) ==> (spec_decoded_bytes(self.data) is None ==> p.0.spec_data()
                == Seq::<u8>::empty()),
    {
        let owner = match Pubkey::parse(self.owner.as_str()) {
            Some(p) => p,
            None => {
                return None;
            },
        };
        if let Some(data) = self.data.decode() {
            Some((T::create(self.lamports, data, owner, self.executable, self.rent_epoch), false))
        } else if self.data.is_json_parsed() {
            let empty: Vec<u8> = Vec::new();
            Some((T::create(self.lamports, empty, owner, self.executable, self.rent_epoch), true))
        } else {
            None
        }
    }

    /// Whether the account's data is in the structured form.
    pub fn is_json_parsed(&self) -> (r: bool)
        ensures
            r == (self.data is Json),
    {
        self.data.is_json_parsed()
    }

    /// The structured information, where the account's data is in the
    /// structured form.
    pub fn parsed_data(&self) -> (r: Option<&ParsedAccount>)
        ensures
            r is Some <==> self.data is Json,
            r matches Some(p) ==> *p == self.data->Json_0,
    {
        self.data.as_parsed()
    }
}

/// A caller-supplied window onto an account's data bytes.
#[derive(Clone, Copy, Debug, PartialEq, Eq, Hash)]
pub struct UiDataSliceConfig {
    pub offset: usize,
    pub length: usize,
}

} // verus!
