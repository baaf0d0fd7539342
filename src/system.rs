//! The System module: account nonces, the transaction extensions, and
//! runtime upgrades.
use crate::client::{
    read_matches, read_spec, set_call_spec, AccountId, Client, Error, Index, StorageRead, Valid,
    XtBuilder,
};
use crate::codec::{append_bytes, compact_of, encode_compact, Encoded};
use crate::metadata::{call_spec, Metadata, MetadataError, ModuleMetadata, Ty};
use vstd::prelude::*;

verus! {

/// How long a transaction stays valid.
#[derive(Clone, Copy, Debug, PartialEq, Eq, Structural)]
pub enum Era {
    Immortal,
    Mortal { period: u64, phase: u64 },
}

/// The data that the runtime's transaction extensions take from the sender:
/// the version, genesis and weight checks carry none of their own.
#[derive(Clone, Copy, Debug, PartialEq, Eq, Structural)]
pub struct SignedExtra {
    pub era: Era,
    pub nonce: Index,
    pub fee: u128,
}

/// What a runtime must provide for the System module.
pub trait System {
    /// The transaction extensions that this runtime derives from `nonce`.
    spec fn spec_extra(nonce: Index) -> SignedExtra;

    /// The transaction extensions for a transaction with `nonce`.
    fn extra(nonce: Index) -> (r: SignedExtra)
        ensures
            r == Self::spec_extra(nonce),
            r.nonce == nonce,
    ;
}

/// A runtime with the standard node's System configuration.
pub trait BasicSystem {}

/// The standard node's extensions: immortal, with no extra fee.
pub fn basic_extra(nonce: Index) -> (r: SignedExtra)
    ensures
        r == (SignedExtra { era: Era::Immortal, nonce, fee: 0 }),
{
    SignedExtra { era: Era::Immortal, nonce, fee: 0 }
}

impl<T: BasicSystem> System for T {
    open spec fn spec_extra(nonce: Index) -> SignedExtra {
        SignedExtra { era: Era::Immortal, nonce, fee: 0 }
    }

    fn extra(nonce: Index) -> (r: SignedExtra) {
        basic_extra(nonce)
    }
}

/// The reads of the System module.
pub trait SystemStore {
    spec fn store_metadata(&self) -> Metadata;

    /// The read of the nonce of `account_id`.
    fn account_nonce(&self, account_id: &AccountId) -> (r: Result<StorageRead, Error>)
        ensures
            read_matches(
                r,
                read_spec(self.store_metadata(), "System"@, "AccountNonce"@, Ty::U64, account_id@),
            ),
    ;
}

impl SystemStore for Client {
    open spec fn store_metadata(&self) -> Metadata {
        self.spec_metadata()
    }

    fn account_nonce(&self, account_id: &AccountId) -> (r: Result<StorageRead, Error>) {
        self.storage_read("System", "AccountNonce", Ty::U64, account_id)
    }
}

/// Calls of the System module.
pub trait SystemXt<'a>: Sized {
    spec fn xt_metadata(&self) -> Metadata;

    spec fn xt_nonce(&self) -> Option<Index>;

    /// The builder with a call of the System module that `f` encodes.
    fn system<F>(&self, f: F) -> (r: Result<XtBuilder<'a, Valid>, MetadataError>) where
        F: FnOnce(&ModuleMetadata) -> Result<Encoded, MetadataError>,

        requires
            forall|m: &ModuleMetadata| f.requires((m,)),
        ensures
            set_call_spec(self.xt_metadata(), self.xt_nonce(), "System"@, f, r),
    ;
}

impl<'a, S> SystemXt<'a> for XtBuilder<'a, S> {
    open spec fn xt_metadata(&self) -> Metadata {
        self.spec_metadata()
    }

    open spec fn xt_nonce(&self) -> Option<Index> {
        self.spec_nonce()
    }

    fn system<F>(&self, f: F) -> (r: Result<XtBuilder<'a, Valid>, MetadataError>) where
        F: FnOnce(&ModuleMetadata) -> Result<Encoded, MetadataError>,
     {
        self.set_call("System", f)
    }
}

/// Replaces the runtime's code with `code`.
pub fn set_code(m: &ModuleMetadata, code: Vec<u8>) -> (r: Result<Encoded, MetadataError>)
    ensures
        match r {
            Ok(e) => call_spec(*m, "set_code"@, compact_of(code@.len() as u128) + code@) == Ok::<
                Seq<u8>,
                MetadataError,
            >(e@),
            Err(e) => call_spec(*m, "set_code"@, compact_of(code@.len() as u128) + code@) == Err::<
                Seq<u8>,
                MetadataError,
            >(e),
        },
{
    let mut args = encode_compact(code.len() as u128);
    append_bytes(&mut args, code.as_slice());
    m.call("set_code", &args)
}

} // verus!
