//! The Balances module: free balances and transfers.
use crate::client::{read_matches, read_spec, set_call_spec, AccountId, Client, Error, Index, StorageRead, Valid, XtBuilder};
use crate::codec::{append_bytes, compact_of, encode_compact, Encoded};
use crate::metadata::{call_spec, Metadata, MetadataError, ModuleMetadata, Ty};
use crate::system::System;
use vstd::prelude::*;

verus! {

/// An amount of the runtime's currency.
pub type Balance = u128;

/// What a runtime must provide for the Balances module, on top of System.
pub trait Balances: System {}

/// A runtime with the standard node's Balances configuration.
pub trait BasicBalances {}

impl<T: BasicBalances + System> Balances for T {}

/// The reads of the Balances module.
pub trait BalancesStore {
    spec fn store_metadata(&self) -> Metadata;

    /// The read of the free balance of `account_id`.
    fn free_balance(&self, account_id: &AccountId) -> (r: Result<StorageRead, Error>)
        ensures
            read_matches(
                r,
                read_spec(self.store_metadata(), "Balances"@, "FreeBalance"@, Ty::U128, account_id@),
            ),
    ;
}

impl BalancesStore for Client {
    open spec fn store_metadata(&self) -> Metadata {
        self.spec_metadata()
    }

    fn free_balance(&self, account_id: &AccountId) -> (r: Result<StorageRead, Error>) {
        self.storage_read("Balances", "FreeBalance", Ty::U128, account_id)
    }
}

/// Calls of the Balances module.
pub trait BalancesXt<'a>: Sized {
    spec fn xt_metadata(&self) -> Metadata;

    spec fn xt_nonce(&self) -> Option<Index>;

    /// The builder with a call of the Balances module that `f` encodes.
    fn balances<F>(&self, f: F) -> (r: Result<XtBuilder<'a, Valid>, MetadataError>) where
        F: FnOnce(&ModuleMetadata) -> Result<Encoded, MetadataError>,

        requires
            forall|m: &ModuleMetadata| f.requires((m,)),
        ensures
            set_call_spec(self.xt_metadata(), self.xt_nonce(), "Balances"@, f, r),
    ;
}

impl<'a, S> BalancesXt<'a> for XtBuilder<'a, S> {
    open spec fn xt_metadata(&self) -> Metadata {
        self.spec_metadata()
    }

    open spec fn xt_nonce(&self) -> Option<Index> {
        self.spec_nonce()
    }

    fn balances<F>(&self, f: F) -> (r: Result<XtBuilder<'a, Valid>, MetadataError>) where
        F: FnOnce(&ModuleMetadata) -> Result<Encoded, MetadataError>,
     {
        self.set_call("Balances", f)
    }
}

/// The encoded arguments of a transfer: the destination, then the amount in
/// compact form.
pub open spec fn transfer_args(to: Seq<u8>, amount: Balance) -> Seq<u8> {
    to + compact_of(amount)
}

/// Moves `amount` of free balance from the sender to `to`.
pub fn transfer(m: &ModuleMetadata, to: &AccountId, amount: Balance) -> (r: Result<Encoded, MetadataError>)
    ensures
        match r {
            Ok(e) => call_spec(*m, "transfer"@, transfer_args(to@, amount)) == Ok::<Seq<u8>, MetadataError>(e@),
            Err(e) => call_spec(*m, "transfer"@, transfer_args(to@, amount)) == Err::<Seq<u8>, MetadataError>(e),
        },
{
    let mut args: Vec<u8> = Vec::new();
    append_bytes(&mut args, to.as_slice());
    let amount_bytes = encode_compact(amount);
    append_bytes(&mut args, amount_bytes.as_slice());
    m.call("transfer", &args)
}

} // verus!
