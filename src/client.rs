//! Storage reads resolved against the descriptor, and the call builder.
use crate::codec::{decode_le, le_value, Encoded};
use crate::metadata::{
    int_width, key_spec, module_spec, resolve_map_spec, MapSpec, Metadata, MetadataError, ModuleMetadata,
    StorageKey, Ty,
};
use vstd::prelude::*;

verus! {

/// An account identifier.
pub type AccountId = [u8; 32];

/// An account's transaction index (its nonce).
pub type Index = u64;

/// Why a read or a call failed.
#[derive(Clone, Copy, Debug, PartialEq, Eq, Structural)]
pub enum Error {
    /// The descriptor has no such module, item or operation, or other types.
    Metadata(MetadataError),
    /// The stored bytes do not hold a value of the declared type.
    Decode,
    /// The transport failed.
    Transport,
}

/// How many bytes a stored value of type `ty` takes, if it is an integer.
/// The outcome of a read that found `fetched` under a key of a map whose
/// values have type `value_ty` and whose absent entries mean `default`.
pub open spec fn fetch_or_spec(fetched: Option<Seq<u8>>, value_ty: Ty, default: u128) -> Result<u128, Error> {
    match fetched {
        None => Ok(default),
        Some(b) => match int_width(value_ty) {
            Some(w) => if b.len() >= w {
                Ok(le_value(b.subrange(0, w as int)) as u128)
            } else {
                Err(Error::Decode)
            },
            None => Err(Error::Decode),
        },
    }
}

fn int_byte_width(ty: Ty) -> (r: Option<usize>)
    ensures
        match r {
            Some(w) => int_width(ty) == Some(w as nat) && w <= 16,
            None => int_width(ty) is None,
        },
{
    match ty {
        Ty::U32 => Some(4),
        Ty::U64 => Some(8),
        Ty::U128 => Some(16),
        Ty::AccountId => None,
    }
}

/// Completes a read: an absent entry means `default`, a present one is
/// decoded as a value of `value_ty`.
pub fn fetch_or(fetched: Option<&Vec<u8>>, value_ty: Ty, default: u128) -> (r: Result<u128, Error>)
    ensures
        r == fetch_or_spec(
            match fetched {
                Some(b) => Some(b@),
                None => None,
            },
            value_ty,
            default,
        ),
{
    match fetched {
        None => Ok(default),
        Some(b) => match int_byte_width(value_ty) {
            Some(w) => match decode_le(b, w) {
                Some(v) => Ok(v),
                None => Err(Error::Decode),
            },
            None => Err(Error::Decode),
        },
    }
}

/// What a read needs from the transport: the key to look up, and how to
/// read what comes back.
pub struct ReadSpec {
    pub key: Seq<u8>,
    pub value_ty: Ty,
    pub default: u128,
}

/// A resolved read of one storage entry, waiting for the transport.
pub struct StorageRead {
    pub key: StorageKey,
    pub value_ty: Ty,
    pub default: u128,
}

impl View for StorageRead {
    type V = ReadSpec;

    open spec fn view(&self) -> ReadSpec {
        ReadSpec { key: self.key@, value_ty: self.value_ty, default: self.default }
    }
}

impl StorageRead {
    /// The value read, given what the transport found under the key.
    pub fn complete(&self, fetched: Option<&Vec<u8>>) -> (r: Result<u128, Error>)
        ensures
            r == fetch_or_spec(
                match fetched {
                    Some(b) => Some(b@),
                    None => None,
                },
                self.value_ty,
                self.default,
            ),
    {
        fetch_or(fetched, self.value_ty, self.default)
    }
}

/// The read of the entry for the account `id` in the map `item` of `module`.
pub open spec fn read_spec(md: Metadata, module: Seq<char>, item: Seq<char>, value_ty: Ty, id: Seq<u8>) -> Result<
    ReadSpec,
    Error,
> {
    match resolve_map_spec(md, module, item, Ty::AccountId, value_ty) {
        Err(e) => Err(Error::Metadata(e)),
        Ok(m) => Ok(ReadSpec { key: key_spec(m, id), value_ty: m.value_ty, default: m.default }),
    }
}

/// `r` is the outcome that `expected` describes.
pub open spec fn read_matches(r: Result<StorageRead, Error>, expected: Result<ReadSpec, Error>) -> bool {
    match r {
        Ok(s) => expected == Ok::<ReadSpec, Error>(s@),
        Err(e) => expected == Err::<ReadSpec, Error>(e),
    }
}

/// `r` is what `set_call` gives for a builder over `md` with `nonce` when it
/// looks up `module` and hands it to `f`.
pub open spec fn set_call_spec<'a, F: FnOnce(&ModuleMetadata) -> Result<Encoded, MetadataError>>(
    md: Metadata,
    nonce: Option<Index>,
    module: Seq<char>,
    f: F,
    r: Result<XtBuilder<'a, Valid>, MetadataError>,
) -> bool {
    match module_spec(md, module) {
        Err(e) => r == Err::<XtBuilder<'a, Valid>, MetadataError>(e),
        Ok(m) => match r {
            Ok(b) => {
                &&& f.ensures((&m,), Ok::<Encoded, MetadataError>(b.spec_call()))
                &&& b.spec_call()@.len() >= 2
                &&& b.spec_metadata() == md
                &&& b.spec_nonce() == nonce
            },
            Err(e) => f.ensures((&m,), Err::<Encoded, MetadataError>(e)),
        },
    }
}

/// A client bound to one runtime's descriptor.
pub struct Client {
    metadata: Metadata,
}

impl Client {
    pub closed spec fn spec_metadata(&self) -> Metadata {
        self.metadata
    }

    pub fn new(metadata: Metadata) -> (r: Client)
        ensures
            r.spec_metadata() == metadata,
    {
        Client { metadata }
    }

    pub fn metadata(&self) -> (r: &Metadata)
        ensures
            *r == self.spec_metadata(),
    {
        &self.metadata
    }

    /// Resolves module, item and types of a map keyed by account, then the
    /// key for `id`. Any failure stops before a key is made.
    pub fn storage_read(&self, module: &str, item: &str, value_ty: Ty, id: &AccountId) -> (r: Result<
        StorageRead,
        Error,
    >)
        ensures
            read_matches(r, read_spec(self.spec_metadata(), module@, item@, value_ty, id@)),
    {
        match self.metadata.storage_map(module, item, Ty::AccountId, value_ty) {
            Err(e) => Err(Error::Metadata(e)),
            Ok(map) => Ok(StorageRead { key: map.key(id), value_ty: map.value_ty(), default: map.default() }),
        }
    }

    /// A builder of a call against this client's descriptor.
    pub fn xt(&self) -> (r: XtBuilder<'_, Unset>)
        ensures
            r.spec_metadata() == self.spec_metadata(),
            r.spec_nonce() is None,
    {
        XtBuilder::new(&self.metadata)
    }
}

/// The state of a builder that holds no call yet.
pub struct Unset;

/// The state of a builder that holds an encoded call.
pub struct Valid {
    call: Encoded,
}

/// A call under construction. Only an `XtBuilder<Valid>` holds a call.
pub struct XtBuilder<'a, S> {
    metadata: &'a Metadata,
    nonce: Option<Index>,
    state: S,
}

impl<'a, S> XtBuilder<'a, S> {
    pub closed spec fn spec_metadata(&self) -> Metadata {
        *self.metadata
    }

    pub closed spec fn spec_nonce(&self) -> Option<Index> {
        self.nonce
    }

    pub closed spec fn spec_state(&self) -> S {
        self.state
    }

    /// The same builder, with the sender's nonce set.
    pub fn set_nonce(self, nonce: Index) -> (r: XtBuilder<'a, S>)
        ensures
            r.spec_metadata() == self.spec_metadata(),
            r.spec_nonce() == Some(nonce),
            r.spec_state() == self.spec_state(),
    {
        XtBuilder { metadata: self.metadata, nonce: Some(nonce), state: self.state }
    }

    pub fn nonce(&self) -> (r: Option<Index>)
        ensures
            r == self.spec_nonce(),
    {
        self.nonce
    }

    /// Looks up `module` and lets `f` encode the call against it. The
    /// result is a new builder, valid, when both succeed; this one is left
    /// as it was.
    pub fn set_call<F>(&self, module: &str, f: F) -> (r: Result<XtBuilder<'a, Valid>, MetadataError>) where
        F: FnOnce(&ModuleMetadata) -> Result<Encoded, MetadataError>,

        requires
            forall|m: &ModuleMetadata| f.requires((m,)),
        ensures
            set_call_spec(self.spec_metadata(), self.spec_nonce(), module@, f, r),
    {
        let m = self.metadata.module(module)?;
        let call = f(m)?;
        proof {
            use_type_invariant(&call);
        }
        Ok(XtBuilder { metadata: self.metadata, nonce: self.nonce, state: Valid { call } })
    }
}

impl<'a> XtBuilder<'a, Unset> {
    pub fn new(metadata: &'a Metadata) -> (r: XtBuilder<'a, Unset>)
        ensures
            r.spec_metadata() == *metadata,
            r.spec_nonce() is None,
    {
        XtBuilder { metadata, nonce: None, state: Unset }
    }
}

impl<'a> XtBuilder<'a, Valid> {
    pub closed spec fn spec_call(&self) -> Encoded {
        self.spec_state().call
    }

    /// The encoded call, to be signed and submitted.
    pub fn call(&self) -> (r: &Encoded)
        ensures
            *r == self.spec_call(),
    {
        &self.state.call
    }
}

} // verus!
