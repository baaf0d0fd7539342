//! Facts about reads and calls that hold for every descriptor.
use crate::client::{fetch_or_spec, read_spec, set_call_spec, Error, Index, Valid, XtBuilder};
use crate::codec::{le_value, Encoded};
use crate::metadata::{
    get_map_spec, has_module, int_width, key_spec, module_spec, resolve_map_spec, storage_spec, first_module,
    MapSpec, Metadata, MetadataError, ModuleMetadata, StorageMetadata, Ty,
};
use vstd::prelude::*;

verus! {

/// A storage key depends on the identifier alone: equal identifiers give
/// equal keys, and identifiers of one length that differ give different keys.
pub proof fn lemma_key_deterministic(map: MapSpec, a: Seq<u8>, b: Seq<u8>)
    requires
        a.len() == b.len(),
    ensures
        (key_spec(map, a) == key_spec(map, b)) <==> (a == b),
{
    if key_spec(map, a) == key_spec(map, b) {
        assert(a =~= key_spec(map, a).subrange(map.prefix.len() as int, key_spec(map, a).len() as int));
        assert(b =~= key_spec(map, b).subrange(map.prefix.len() as int, key_spec(map, b).len() as int));
    }
}

/// A read whose key is unset gives the declared default; one whose key is
/// set gives the decoded value, or a decode error when the bytes are too few.
pub proof fn lemma_fetch_or_default_or_decoded(fetched: Option<Seq<u8>>, value_ty: Ty, default: u128)
    ensures
        fetched is None ==> fetch_or_spec(fetched, value_ty, default) == Ok::<u128, Error>(default),
        fetched is Some ==> match int_width(value_ty) {
            Some(w) => if fetched->0.len() >= w {
                fetch_or_spec(fetched, value_ty, default) == Ok::<u128, Error>(
                    le_value(fetched->0.subrange(0, w as int)) as u128,
                )
            } else {
                fetch_or_spec(fetched, value_ty, default) == Err::<u128, Error>(Error::Decode)
            },
            None => fetch_or_spec(fetched, value_ty, default) == Err::<u128, Error>(Error::Decode),
        },
{
}

/// A module that the descriptor lacks gives `ModuleNotFound`, whichever
/// storage item, types, account or call was asked for.
pub proof fn lemma_missing_module<'a, F: FnOnce(&ModuleMetadata) -> Result<Encoded, MetadataError>>(
    md: Metadata,
    module: Seq<char>,
    item: Seq<char>,
    key_ty: Ty,
    value_ty: Ty,
    id: Seq<u8>,
    nonce: Option<Index>,
    f: F,
    r: Result<XtBuilder<'a, Valid>, MetadataError>,
)
    requires
        !has_module(md, module),
    ensures
        module_spec(md, module) == Err::<ModuleMetadata, MetadataError>(MetadataError::ModuleNotFound),
        resolve_map_spec(md, module, item, key_ty, value_ty) == Err::<MapSpec, MetadataError>(
            MetadataError::ModuleNotFound,
        ),
        read_spec(md, module, item, value_ty, id) == Err::<crate::client::ReadSpec, Error>(
            Error::Metadata(MetadataError::ModuleNotFound),
        ),
        set_call_spec(md, nonce, module, f, r) ==> r == Err::<XtBuilder<'a, Valid>, MetadataError>(
            MetadataError::ModuleNotFound,
        ),
{
    assert(!exists|i: int| first_module(md@, module, i));
}

/// `set_call` either fails or gives a valid builder whose payload is not
/// empty.
pub proof fn lemma_valid_call_not_empty<'a, F: FnOnce(&ModuleMetadata) -> Result<Encoded, MetadataError>>(
    md: Metadata,
    nonce: Option<Index>,
    module: Seq<char>,
    f: F,
    r: Result<XtBuilder<'a, Valid>, MetadataError>,
)
    requires
        set_call_spec(md, nonce, module, f, r),
    ensures
        r is Ok ==> r->Ok_0.spec_call()@.len() > 0,
{
}

/// Asking a storage item for a map whose value type differs from the one it
/// declares gives `TypeMismatch`, whatever key type is asked for.
pub proof fn lemma_value_type_mismatch(item: StorageMetadata, key_ty: Ty, value_ty: Ty)
    requires
        item.value_ty != value_ty,
    ensures
        get_map_spec(item, key_ty, value_ty) == Err::<MapSpec, MetadataError>(MetadataError::TypeMismatch),
{
}

/// Through the whole resolution: once module and item are found, a value
/// type other than the declared one gives `TypeMismatch`.
pub proof fn lemma_resolve_type_mismatch(md: Metadata, module: Seq<char>, item: Seq<char>, key_ty: Ty, value_ty: Ty)
    requires
        module_spec(md, module) is Ok,
        storage_spec(module_spec(md, module)->Ok_0, item) is Ok,
        storage_spec(module_spec(md, module)->Ok_0, item)->Ok_0.value_ty != value_ty,
    ensures
        resolve_map_spec(md, module, item, key_ty, value_ty) == Err::<MapSpec, MetadataError>(
            MetadataError::TypeMismatch,
        ),
{
}

} // verus!
