//! The metadata descriptor: modules, their storage items and their calls,
//! looked up by exact name.
use crate::codec::{append_bytes, Encoded};
use vstd::prelude::*;

verus! {

/// A type that a storage item declares for its key or its value.
#[derive(Clone, Copy, Debug, PartialEq, Eq, Structural)]
pub enum Ty {
    AccountId,
    U32,
    U64,
    U128,
}

/// Why a lookup in the descriptor failed.
#[derive(Clone, Copy, Debug, PartialEq, Eq, Structural)]
pub enum MetadataError {
    ModuleNotFound,
    StorageItemNotFound,
    OperationNotFound,
    TypeMismatch,
}

/// How many bytes a stored value of type `ty` takes, if it is an integer.
pub open spec fn int_width(ty: Ty) -> Option<nat> {
    match ty {
        Ty::U32 => Some(4),
        Ty::U64 => Some(8),
        Ty::U128 => Some(16),
        Ty::AccountId => None,
    }
}

/// The integer `d` is a value of type `ty`.
pub open spec fn fits(ty: Ty, d: u128) -> bool {
    match ty {
        Ty::U32 => d <= u32::MAX,
        Ty::U64 => d <= u64::MAX,
        _ => true,
    }
}

/// A storage map as the descriptor declares it.
pub struct StorageMetadata {
    pub name: String,
    /// The bytes that every key of this map starts with.
    pub prefix: Vec<u8>,
    pub key_ty: Ty,
    pub value_ty: Ty,
    /// The value that an absent entry stands for.
    pub default: u128,
}

/// One module of the runtime. A call's index is its position in `calls`.
pub struct ModuleMetadata {
    name: String,
    index: u8,
    storage: Vec<StorageMetadata>,
    calls: Vec<String>,
}

/// The directory of the runtime's modules.
pub struct Metadata {
    modules: Vec<ModuleMetadata>,
}

/// What a storage map accessor holds.
pub struct MapSpec {
    pub prefix: Seq<u8>,
    pub key_ty: Ty,
    pub value_ty: Ty,
    pub default: u128,
}

/// A typed accessor of one storage map.
pub struct StorageMap {
    prefix: Vec<u8>,
    key_ty: Ty,
    value_ty: Ty,
    default: u128,
}

/// The address of one value in remote state.
pub struct StorageKey {
    bytes: Vec<u8>,
}

impl View for StorageKey {
    type V = Seq<u8>;

    closed spec fn view(&self) -> Seq<u8> {
        self.bytes@
    }
}

impl View for StorageMap {
    type V = MapSpec;

    closed spec fn view(&self) -> MapSpec {
        MapSpec {
            prefix: self.prefix@,
            key_ty: self.key_ty,
            value_ty: self.value_ty,
            default: self.default,
        }
    }
}

impl View for Metadata {
    type V = Seq<ModuleMetadata>;

    closed spec fn view(&self) -> Seq<ModuleMetadata> {
        self.modules@
    }
}

/// `i` is the first position of `mods` whose module is called `name`.
pub open spec fn first_module(mods: Seq<ModuleMetadata>, name: Seq<char>, i: int) -> bool {
    &&& 0 <= i < mods.len()
    &&& mods[i].spec_name() == name
    &&& forall|j: int| 0 <= j < i ==> mods[j].spec_name() != name
}

pub open spec fn has_module(md: Metadata, name: Seq<char>) -> bool {
    exists|i: int| 0 <= i < md@.len() && md@[i].spec_name() == name
}

/// The module that a lookup of `name` finds.
pub open spec fn module_spec(md: Metadata, name: Seq<char>) -> Result<ModuleMetadata, MetadataError> {
    if exists|i: int| first_module(md@, name, i) {
        Ok(md@[choose|i: int| first_module(md@, name, i)])
    } else {
        Err(MetadataError::ModuleNotFound)
    }
}

pub open spec fn first_item(items: Seq<StorageMetadata>, name: Seq<char>, i: int) -> bool {
    &&& 0 <= i < items.len()
    &&& items[i].name@ == name
    &&& forall|j: int| 0 <= j < i ==> items[j].name@ != name
}

/// The storage item that a lookup of `name` in module `m` finds.
pub open spec fn storage_spec(m: ModuleMetadata, name: Seq<char>) -> Result<StorageMetadata, MetadataError> {
    if exists|i: int| first_item(m.spec_storage(), name, i) {
        Ok(m.spec_storage()[choose|i: int| first_item(m.spec_storage(), name, i)])
    } else {
        Err(MetadataError::StorageItemNotFound)
    }
}

pub open spec fn first_call(calls: Seq<String>, name: Seq<char>, i: int) -> bool {
    &&& 0 <= i < calls.len()
    &&& calls[i]@ == name
    &&& forall|j: int| 0 <= j < i ==> calls[j]@ != name
}

/// The payload of a call of `op` in module `m` with encoded arguments `args`.
pub open spec fn call_spec(m: ModuleMetadata, op: Seq<char>, args: Seq<u8>) -> Result<Seq<u8>, MetadataError> {
    if exists|i: int| first_call(m.spec_calls(), op, i) {
        let i = choose|i: int| first_call(m.spec_calls(), op, i);
        Ok(seq![m.spec_index(), i as u8] + args)
    } else {
        Err(MetadataError::OperationNotFound)
    }
}

/// The accessor that asking `item` for a map from `key_ty` to `value_ty`
/// gives. A declared default that is no value of the declared type is a
/// mismatch too.
pub open spec fn get_map_spec(item: StorageMetadata, key_ty: Ty, value_ty: Ty) -> Result<MapSpec, MetadataError> {
    if item.key_ty == key_ty && item.value_ty == value_ty && fits(value_ty, item.default) {
        Ok(MapSpec { prefix: item.prefix@, key_ty, value_ty, default: item.default })
    } else {
        Err(MetadataError::TypeMismatch)
    }
}

/// The key of the entry for `id`.
pub open spec fn key_spec(map: MapSpec, id: Seq<u8>) -> Seq<u8> {
    map.prefix + id
}

/// The whole resolution of a storage map: module, item, then types.
pub open spec fn resolve_map_spec(
    md: Metadata,
    module: Seq<char>,
    item: Seq<char>,
    key_ty: Ty,
    value_ty: Ty,
) -> Result<MapSpec, MetadataError> {
    match module_spec(md, module) {
        Err(e) => Err(e),
        Ok(m) => match storage_spec(m, item) {
            Err(e) => Err(e),
            Ok(s) => get_map_spec(s, key_ty, value_ty),
        },
    }
}

fn copy_bytes(src: &Vec<u8>) -> (r: Vec<u8>)
    ensures
        r@ == src@,
{
    let mut r: Vec<u8> = Vec::new();
    append_bytes(&mut r, src.as_slice());
    r
}

impl StorageKey {
    pub fn as_bytes(&self) -> (r: &Vec<u8>)
        ensures
            r@ == self@,
    {
        &self.bytes
    }
}

impl StorageMap {
    /// The key of the entry for the account `id`.
    pub fn key(&self, id: &[u8; 32]) -> (r: StorageKey)
        requires
            self@.key_ty == Ty::AccountId,
        ensures
            r@ == key_spec(self@, id@),
    {
        let mut bytes = copy_bytes(&self.prefix);
        append_bytes(&mut bytes, id.as_slice());
        StorageKey { bytes }
    }

    /// The value that an absent entry stands for.
    pub fn default(&self) -> (r: u128)
        ensures
            r == self@.default,
    {
        self.default
    }

    pub fn key_ty(&self) -> (r: Ty)
        ensures
            r == self@.key_ty,
    {
        self.key_ty
    }

    pub fn value_ty(&self) -> (r: Ty)
        ensures
            r == self@.value_ty,
    {
        self.value_ty
    }
}

impl ModuleMetadata {
    #[verifier::type_invariant]
    spec fn inv(&self) -> bool {
        self.calls@.len() <= 256
    }

    pub closed spec fn spec_name(&self) -> Seq<char> {
        self.name@
    }

    pub closed spec fn spec_index(&self) -> u8 {
        self.index
    }

    pub closed spec fn spec_storage(&self) -> Seq<StorageMetadata> {
        self.storage@
    }

    pub closed spec fn spec_calls(&self) -> Seq<String> {
        self.calls@
    }

    /// A module; a call's index is its position in `calls`, so there are at
    /// most 256 of them.
    pub fn new(name: String, index: u8, storage: Vec<StorageMetadata>, calls: Vec<String>) -> (r: ModuleMetadata)
        requires
            calls@.len() <= 256,
        ensures
            r.spec_name() == name@,
            r.spec_index() == index,
            r.spec_storage() == storage@,
            r.spec_calls() == calls@,
    {
        ModuleMetadata { name, index, storage, calls }
    }

    pub fn name(&self) -> (r: &String)
        ensures
            r@ == self.spec_name(),
    {
        &self.name
    }

    pub fn index(&self) -> (r: u8)
        ensures
            r == self.spec_index(),
    {
        self.index
    }

    /// The storage item called `name`.
    pub fn storage(&self, name: &str) -> (r: Result<&StorageMetadata, MetadataError>)
        ensures
            match r {
                Ok(s) => storage_spec(*self, name@) == Ok::<StorageMetadata, MetadataError>(*s),
                Err(e) => storage_spec(*self, name@) == Err::<StorageMetadata, MetadataError>(e),
            },
    {
        let wanted = name.to_owned();
        let mut i: usize = 0;
        while i < self.storage.len()
            invariant
                i <= self.storage@.len(),
                wanted@ == name@,
                forall|j: int| 0 <= j < i ==> self.storage@[j].name@ != name@,
            decreases self.storage@.len() - i,
        {
            if self.storage[i].name == wanted {
                proof {
                    assert(first_item(self.spec_storage(), name@, i as int));
                    let c = choose|c: int| first_item(self.spec_storage(), name@, c);
                    assert(c == i);
                }
                return Ok(&self.storage[i]);
            }
            i = i + 1;
        }
        Err(MetadataError::StorageItemNotFound)
    }

    /// The payload that calls operation `op` with the encoded arguments `args`.
    pub fn call(&self, op: &str, args: &Vec<u8>) -> (r: Result<Encoded, MetadataError>)
        ensures
            match r {
                Ok(e) => call_spec(*self, op@, args@) == Ok::<Seq<u8>, MetadataError>(e@),
                Err(e) => call_spec(*self, op@, args@) == Err::<Seq<u8>, MetadataError>(e),
            },
    {
        proof {
            use_type_invariant(self);
        }
        let wanted = op.to_owned();
        let mut i: usize = 0;
        while i < self.calls.len()
            invariant
                i <= self.calls@.len() <= 256,
                wanted@ == op@,
                forall|j: int| 0 <= j < i ==> self.calls@[j]@ != op@,
            decreases self.calls@.len() - i,
        {
            if self.calls[i] == wanted {
                proof {
                    assert(first_call(self.spec_calls(), op@, i as int));
                    let c = choose|c: int| first_call(self.spec_calls(), op@, c);
                    assert(c == i);
                }
                return Ok(Encoded::from_parts(self.index, i as u8, args));
            }
            i = i + 1;
        }
        Err(MetadataError::OperationNotFound)
    }
}

impl StorageMetadata {
    /// An accessor of this map, if it maps `key_ty` to `value_ty`.
    pub fn get_map(&self, key_ty: Ty, value_ty: Ty) -> (r: Result<StorageMap, MetadataError>)
        ensures
            match r {
                Ok(m) => get_map_spec(*self, key_ty, value_ty) == Ok::<MapSpec, MetadataError>(m@),
                Err(e) => get_map_spec(*self, key_ty, value_ty) == Err::<MapSpec, MetadataError>(e),
            },
    {
        let default_fits = match value_ty {
            Ty::U32 => self.default <= 0xffff_ffff,
            Ty::U64 => self.default <= 0xffff_ffff_ffff_ffff,
            _ => true,
        };
        if self.key_ty == key_ty && self.value_ty == value_ty && default_fits {
            Ok(StorageMap { prefix: copy_bytes(&self.prefix), key_ty, value_ty, default: self.default })
        } else {
            Err(MetadataError::TypeMismatch)
        }
    }
}

impl Metadata {
    pub fn new(modules: Vec<ModuleMetadata>) -> (r: Metadata)
        ensures
            r@ == modules@,
    {
        Metadata { modules }
    }

    /// The module called `name`.
    pub fn module(&self, name: &str) -> (r: Result<&ModuleMetadata, MetadataError>)
        ensures
            match r {
                Ok(m) => module_spec(*self, name@) == Ok::<ModuleMetadata, MetadataError>(*m),
                Err(e) => module_spec(*self, name@) == Err::<ModuleMetadata, MetadataError>(e),
            },
    {
        let wanted = name.to_owned();
        let mut i: usize = 0;
        while i < self.modules.len()
            invariant
                i <= self.modules@.len(),
                wanted@ == name@,
                forall|j: int| 0 <= j < i ==> self.modules@[j].spec_name() != name@,
            decreases self.modules@.len() - i,
        {
            if self.modules[i].name == wanted {
                proof {
                    assert(first_module(self@, name@, i as int));
                    let c = choose|c: int| first_module(self@, name@, c);
                    assert(c == i);
                }
                return Ok(&self.modules[i]);
            }
            i = i + 1;
        }
        Err(MetadataError::ModuleNotFound)
    }

    /// Module, storage item, then an accessor from `key_ty` to `value_ty`;
    /// the first step that fails gives the error.
    pub fn storage_map(&self, module: &str, item: &str, key_ty: Ty, value_ty: Ty) -> (r: Result<StorageMap, MetadataError>)
        ensures
            match r {
                Ok(m) => resolve_map_spec(*self, module@, item@, key_ty, value_ty) == Ok::<MapSpec, MetadataError>(m@),
                Err(e) => resolve_map_spec(*self, module@, item@, key_ty, value_ty) == Err::<MapSpec, MetadataError>(e),
            },
    {
        let m = self.module(module)?;
        let s = m.storage(item)?;
        s.get_map(key_ty, value_ty)
    }
}

} // verus!
