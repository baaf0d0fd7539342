use subxt::balances::{transfer, BalancesStore, BalancesXt, BasicBalances, Balances};
use subxt::client::{fetch_or, Client, Error};
use subxt::codec::decode_le;
use subxt::metadata::{Metadata, MetadataError, ModuleMetadata, StorageMetadata, Ty};
use subxt::system::{set_code, BasicSystem, Era, SignedExtra, System, SystemStore, SystemXt};

const BALANCES_PREFIX: &[u8] = b"Balances FreeBalance";
const NONCE_PREFIX: &[u8] = b"System AccountNonce";

fn item(name: &str, prefix: &[u8], key_ty: Ty, value_ty: Ty, default: u128) -> StorageMetadata {
    StorageMetadata { name: name.to_string(), prefix: prefix.to_vec(), key_ty, value_ty, default }
}

fn balances_module(index: u8) -> ModuleMetadata {
    ModuleMetadata::new(
        "Balances".to_string(),
        index,
        vec![item("FreeBalance", BALANCES_PREFIX, Ty::AccountId, Ty::U128, 0)],
        vec!["set_balance".to_string(), "transfer".to_string()],
    )
}

fn system_module(index: u8) -> ModuleMetadata {
    ModuleMetadata::new(
        "System".to_string(),
        index,
        vec![item("AccountNonce", NONCE_PREFIX, Ty::AccountId, Ty::U64, 0)],
        vec!["remark".to_string(), "set_heap_pages".to_string(), "set_code".to_string()],
    )
}

fn node_metadata() -> Metadata {
    Metadata::new(vec![system_module(0), balances_module(3)])
}

fn account(b: u8) -> [u8; 32] {
    [b; 32]
}

fn le16(v: u128) -> Vec<u8> {
    v.to_le_bytes().to_vec()
}

fn key_bytes(prefix: &[u8], id: &[u8; 32]) -> Vec<u8> {
    let mut k = prefix.to_vec();
    k.extend_from_slice(id);
    k
}

#[test]
fn key_is_prefix_then_account() {
    let md = node_metadata();
    let map = md.storage_map("Balances", "FreeBalance", Ty::AccountId, Ty::U128).ok().unwrap();
    let a = account(7);
    let k1 = map.key(&a);
    let k2 = map.key(&a);
    assert_eq!(k1.as_bytes(), k2.as_bytes());
    assert_eq!(k1.as_bytes(), &key_bytes(BALANCES_PREFIX, &a));
    assert_ne!(map.key(&account(8)).as_bytes(), k1.as_bytes());
    assert_eq!(map.default(), 0);
    assert_eq!(map.value_ty(), Ty::U128);
}

#[test]
fn fetch_or_unset_gives_default() {
    assert_eq!(fetch_or(None, Ty::U128, 42), Ok(42));
    assert_eq!(fetch_or(None, Ty::U32, 0), Ok(0));
}

#[test]
fn fetch_or_set_gives_decoded_value() {
    assert_eq!(fetch_or(Some(&le16(500)), Ty::U128, 42), Ok(500));
    assert_eq!(fetch_or(Some(&vec![0, 0, 0, 0, 0, 0, 0, 0]), Ty::U64, 9), Ok(0));
    assert_eq!(fetch_or(Some(&vec![1, 2, 0, 0, 99]), Ty::U32, 9), Ok(0x0201));
    assert_eq!(fetch_or(Some(&le16(u128::MAX)), Ty::U128, 0), Ok(u128::MAX));
}

#[test]
fn fetch_or_short_bytes_is_decode_error() {
    assert_eq!(fetch_or(Some(&vec![1, 2, 3]), Ty::U32, 0), Err(Error::Decode));
    assert_eq!(fetch_or(Some(&vec![]), Ty::U128, 0), Err(Error::Decode));
    assert_eq!(fetch_or(Some(&vec![0; 32]), Ty::AccountId, 0), Err(Error::Decode));
}

#[test]
fn decode_le_reads_width_bytes() {
    assert_eq!(decode_le(&vec![0x78, 0x56, 0x34, 0x12], 4), Some(0x12345678));
    assert_eq!(decode_le(&vec![0x78, 0x56, 0x34], 4), None);
    assert_eq!(decode_le(&vec![], 0), Some(0));
}

#[test]
fn free_balance_absent_and_present() {
    let client = Client::new(node_metadata());
    let a = account(0xaa);
    let b = account(0xbb);
    let read_a = client.free_balance(&a).ok().unwrap();
    let read_b = client.free_balance(&b).ok().unwrap();
    assert_eq!(read_a.key.as_bytes(), &key_bytes(BALANCES_PREFIX, &a));
    assert_eq!(read_b.key.as_bytes(), &key_bytes(BALANCES_PREFIX, &b));
    assert_eq!(read_a.complete(None), Ok(0));
    assert_eq!(read_b.complete(Some(&le16(500))), Ok(500));
}

#[test]
fn independent_reads_complete_in_any_order() {
    let client = Client::new(node_metadata());
    let read_a = client.free_balance(&account(1)).ok().unwrap();
    let read_b = client.free_balance(&account(2)).ok().unwrap();
    let stored_a = le16(700);
    let stored_b = le16(11);
    let b_first = read_b.complete(Some(&stored_b));
    let a_second = read_a.complete(Some(&stored_a));
    assert_eq!(b_first, Ok(11));
    assert_eq!(a_second, Ok(700));
    assert_eq!(read_a.complete(Some(&stored_a)), Ok(700));
    assert_eq!(read_b.complete(Some(&stored_b)), Ok(11));
}

#[test]
fn account_nonce_read() {
    let client = Client::new(node_metadata());
    let a = account(3);
    let read = client.account_nonce(&a).ok().unwrap();
    assert_eq!(read.key.as_bytes(), &key_bytes(NONCE_PREFIX, &a));
    assert_eq!(read.value_ty, Ty::U64);
    assert_eq!(read.complete(Some(&vec![5, 0, 0, 0, 0, 0, 0, 0])), Ok(5));
    assert_eq!(read.complete(None), Ok(0));
}

#[test]
fn missing_module_is_module_not_found() {
    let client = Client::new(Metadata::new(vec![system_module(0)]));
    assert!(matches!(client.free_balance(&account(1)), Err(Error::Metadata(MetadataError::ModuleNotFound))));
    let md = client.metadata();
    assert!(matches!(md.module("balances"), Err(MetadataError::ModuleNotFound)));
    assert!(matches!(
        md.storage_map("Balances", "AccountNonce", Ty::AccountId, Ty::U64),
        Err(MetadataError::ModuleNotFound)
    ));
    let empty = Client::new(Metadata::new(vec![]));
    assert!(matches!(empty.account_nonce(&account(1)), Err(Error::Metadata(MetadataError::ModuleNotFound))));
}

#[test]
fn missing_item_is_storage_item_not_found() {
    let md = node_metadata();
    assert!(matches!(
        md.storage_map("Balances", "ReservedBalance", Ty::AccountId, Ty::U128),
        Err(MetadataError::StorageItemNotFound)
    ));
    assert!(matches!(
        md.storage_map("Balances", "freebalance", Ty::AccountId, Ty::U128),
        Err(MetadataError::StorageItemNotFound)
    ));
}

#[test]
fn other_types_are_type_mismatch() {
    let md = node_metadata();
    assert!(matches!(
        md.storage_map("Balances", "FreeBalance", Ty::AccountId, Ty::U64),
        Err(MetadataError::TypeMismatch)
    ));
    assert!(matches!(
        md.storage_map("Balances", "FreeBalance", Ty::U32, Ty::U128),
        Err(MetadataError::TypeMismatch)
    ));
    let client = Client::new(Metadata::new(vec![ModuleMetadata::new(
        "Balances".to_string(),
        0,
        vec![item("FreeBalance", BALANCES_PREFIX, Ty::AccountId, Ty::U64, 0)],
        vec![],
    )]));
    assert!(matches!(client.free_balance(&account(1)), Err(Error::Metadata(MetadataError::TypeMismatch))));
}

#[test]
fn first_module_of_a_name_wins() {
    let md = Metadata::new(vec![balances_module(3), balances_module(9)]);
    assert_eq!(md.module("Balances").ok().unwrap().index(), 3);
    assert_eq!(md.module("Balances").ok().unwrap().name(), "Balances");
}

#[test]
fn transfer_payload() {
    let md = node_metadata();
    let d = account(0xdd);
    let encoded = transfer(md.module("Balances").ok().unwrap(), &d, 100).ok().unwrap();
    let mut expected = vec![3u8, 1];
    expected.extend_from_slice(&d);
    expected.extend_from_slice(&[0x91, 0x01]);
    assert_eq!(encoded.as_bytes(), &expected);
    assert_eq!(encoded.len(), 36);
}

#[test]
fn transfer_large_amount_payload() {
    let md = node_metadata();
    let d = account(1);
    let encoded = transfer(md.module("Balances").ok().unwrap(), &d, 1 << 30).ok().unwrap();
    assert_eq!(&encoded.as_bytes()[34..], &[0x03, 0x00, 0x00, 0x00, 0x40]);
    let small = transfer(md.module("Balances").ok().unwrap(), &d, 5).ok().unwrap();
    assert_eq!(&small.as_bytes()[34..], &[20]);
}

#[test]
fn transfer_without_operation_is_operation_not_found() {
    let md = Metadata::new(vec![ModuleMetadata::new("Balances".to_string(), 0, vec![], vec!["set_balance".to_string()])]);
    assert!(matches!(transfer(md.module("Balances").ok().unwrap(), &account(1), 1), Err(MetadataError::OperationNotFound)));
}

#[test]
fn builder_with_transfer_is_valid() {
    let client = Client::new(node_metadata());
    let d = account(0xdd);
    let builder = client.xt().set_nonce(4).balances(|m| transfer(m, &d, 100)).ok().unwrap();
    let mut expected = vec![3u8, 1];
    expected.extend_from_slice(&d);
    expected.extend_from_slice(&[0x91, 0x01]);
    assert_eq!(builder.call().as_bytes(), &expected);
    assert_eq!(builder.nonce(), Some(4));
}

#[test]
fn builder_without_balances_module_is_module_not_found() {
    let client = Client::new(Metadata::new(vec![system_module(0)]));
    let d = account(0xdd);
    let r = client.xt().balances(|m| transfer(m, &d, 100));
    assert!(matches!(r, Err(MetadataError::ModuleNotFound)));
}

#[test]
fn builder_failing_encoder_stays_unset() {
    let client = Client::new(node_metadata());
    let r = client.xt().system(|m| m.call("kill_storage", &vec![]));
    assert!(matches!(r, Err(MetadataError::OperationNotFound)));
}

#[test]
fn set_code_payload() {
    let client = Client::new(node_metadata());
    let builder = client.xt().system(|m| set_code(m, vec![0xde, 0xad, 0x01])).ok().unwrap();
    assert_eq!(builder.call().as_bytes(), &vec![0u8, 2, 12, 0xde, 0xad, 0x01]);
    assert_eq!(builder.nonce(), None);
}

#[test]
fn set_call_names_the_module() {
    let client = Client::new(node_metadata());
    let builder = client.xt().set_call("Balances", |m| m.call("set_balance", &vec![7])).ok().unwrap();
    assert_eq!(builder.call().as_bytes(), &vec![3u8, 0, 7]);
}

struct Node;

impl BasicSystem for Node {}

impl BasicBalances for Node {}

fn extra_of<T: Balances>(nonce: u64) -> SignedExtra {
    T::extra(nonce)
}

#[test]
fn basic_runtime_extra() {
    let e = extra_of::<Node>(5);
    assert_eq!(e, SignedExtra { era: Era::Immortal, nonce: 5, fee: 0 });
    assert_eq!(<Node as System>::extra(0).nonce, 0);
}

#[test]
fn builder_survives_failed_call() {
    let client = Client::new(node_metadata());
    let unset = client.xt().set_nonce(9);
    assert!(matches!(unset.set_call("Staking", |m| m.call("bond", &vec![])), Err(MetadataError::ModuleNotFound)));
    assert!(matches!(unset.system(|m| m.call("kill_storage", &vec![])), Err(MetadataError::OperationNotFound)));
    let valid = unset.balances(|m| m.call("set_balance", &vec![1])).ok().unwrap();
    assert_eq!(valid.call().as_bytes(), &vec![3u8, 0, 1]);
    assert_eq!(valid.nonce(), Some(9));
    assert_eq!(unset.nonce(), Some(9));
    let renonced = valid.set_nonce(10);
    assert_eq!(renonced.call().as_bytes(), &vec![3u8, 0, 1]);
    assert_eq!(renonced.nonce(), Some(10));
}

#[test]
fn default_outside_value_type_is_type_mismatch() {
    let md = Metadata::new(vec![ModuleMetadata::new(
        "System".to_string(),
        0,
        vec![
            item("AccountNonce", NONCE_PREFIX, Ty::AccountId, Ty::U64, 1u128 << 64),
            item("Small", b"System Small", Ty::AccountId, Ty::U32, u32::MAX as u128),
        ],
        vec![],
    )]);
    assert!(matches!(
        md.storage_map("System", "AccountNonce", Ty::AccountId, Ty::U64),
        Err(MetadataError::TypeMismatch)
    ));
    let small = md.storage_map("System", "Small", Ty::AccountId, Ty::U32).ok().unwrap();
    assert_eq!(small.default(), u32::MAX as u128);
    assert_eq!(small.key_ty(), Ty::AccountId);
}
