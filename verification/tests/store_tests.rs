use redb::backends::InMemoryBackend;
use redb::Database;
use redb::ReadableDatabase;
use redb::ReadableTable;
use redb::TableDefinition;
use salus::error::StoreError;
use salus::seal::MasterKey;
use salus::store::check_candidate;
use salus::store::check_plaintext_bytes;
use salus::store::count_of_row;
use salus::store::flag_of_row;
use salus::store::is_check_plaintext;
use salus::store::open_row;
use salus::store::read_row;
use salus::store::ShareStore;
use salus::store::UnlockStatus;
use salus::unlock_key;
use salus::Init;
use salus::Response;

fn memory_db() -> Database {
    Database::builder()
        .create_with_backend(InMemoryBackend::new())
        .expect("no database")
}

fn fresh_store() -> ShareStore {
    ShareStore::new(memory_db())
}

fn config_row(db: &Database, key: &str) -> Option<Vec<u8>> {
    let txn = db.begin_read().expect("no transaction");
    let table = match txn.open_table(TableDefinition::<&str, &[u8]>::new("salus_config")) {
        Ok(table) => table,
        Err(_) => return None,
    };
    let row = table.get(key).expect("no read").map(|guard| guard.value().to_vec());
    row
}

fn value_row(db: &Database, key: &str) -> Option<Vec<u8>> {
    let txn = db.begin_read().expect("no transaction");
    let table = match txn.open_table(TableDefinition::<&str, &[u8]>::new("salus_store")) {
        Ok(table) => table,
        Err(_) => return None,
    };
    let row = table.get(key).expect("no read").map(|guard| guard.value().to_vec());
    row
}

fn shares_of(response: Response) -> Vec<String> {
    match response {
        Response::Shares(shares) => shares.shares().to_vec(),
        other => panic!("not shares: {:?}", other),
    }
}

fn initialized_store() -> (ShareStore, Vec<String>) {
    let mut store = fresh_store();
    assert_eq!(store.initialize(Init::new(5, 3)), Ok(Response::Success));
    let shares = shares_of(store.gen_shares().expect("no shares"));
    (store, shares)
}

fn unlocked_store() -> (ShareStore, Vec<String>) {
    let (mut store, shares) = initialized_store();
    for share in &shares[..3] {
        store.add_share(share);
    }
    assert_eq!(store.unlock(), Ok(UnlockStatus::Unlocked));
    (store, shares)
}

#[test]
fn a_new_store_is_locked() {
    let store = fresh_store();
    assert!(!store.is_unlocked());
}

#[test]
fn initialize_writes_both_counts() {
    let mut store = fresh_store();
    assert_eq!(store.initialize(Init::new(7, 4)), Ok(Response::Success));
    assert_eq!(store.get_threshold(), Ok(4));
    let db = store.into_database();
    assert_eq!(config_row(&db, "NUM_SHARES"), Some(vec![1, 7]));
    assert_eq!(config_row(&db, "THRESHOLD"), Some(vec![1, 4]));
    assert_eq!(config_row(&db, "INITIALIZED"), None);
    assert_eq!(value_row(&db, "CHECK_KEY"), None);
}

#[test]
fn initialize_twice_keeps_the_last_counts() {
    let mut store = fresh_store();
    assert_eq!(store.initialize(Init::new(7, 4)), Ok(Response::Success));
    assert_eq!(store.initialize(Init::new(7, 4)), Ok(Response::Success));
    assert_eq!(store.get_threshold(), Ok(4));
    assert_eq!(store.initialize(Init::new(9, 2)), Ok(Response::Success));
    assert_eq!(store.get_threshold(), Ok(2));
}

#[test]
fn threshold_is_three_where_none_is_written() {
    let store = fresh_store();
    assert_eq!(store.get_threshold(), Ok(3));
}

#[test]
fn threshold_is_three_where_the_row_holds_none() {
    let db = memory_db();
    {
        let txn = db.begin_write().expect("no transaction");
        {
            let mut table = txn
                .open_table(TableDefinition::<&str, &[u8]>::new("salus_config"))
                .expect("no table");
            table.insert("THRESHOLD", &[0u8][..]).expect("no insert");
        }
        txn.commit().expect("no commit");
    }
    let store = ShareStore::new(db);
    assert_eq!(store.get_threshold(), Ok(3));
}

#[test]
fn gen_shares_without_counts_makes_five_shares() {
    let mut store = fresh_store();
    let shares = shares_of(store.gen_shares().expect("no shares"));
    assert_eq!(shares.len(), 5);
    assert!(!store.is_unlocked());
}

#[test]
fn gen_shares_marks_the_store_and_writes_the_sentinel() {
    let (store, shares) = initialized_store();
    assert_eq!(shares.len(), 5);
    for a in 0..5 {
        for b in 0..5 {
            if a != b {
                assert_ne!(shares[a], shares[b]);
            }
        }
    }
    assert!(!store.is_unlocked());
    let db = store.into_database();
    assert_eq!(config_row(&db, "INITIALIZED"), Some(vec![1, 1]));
    assert_eq!(config_row(&db, "NUM_SHARES"), Some(vec![1, 5]));
    assert_eq!(config_row(&db, "THRESHOLD"), Some(vec![1, 3]));
    let row = value_row(&db, "CHECK_KEY").expect("no sentinel");
    assert_eq!(row.len(), 12 + 9 + 16);
}

#[test]
fn the_sentinel_is_sealed_under_the_key_of_the_shares() {
    let (store, shares) = initialized_store();
    let key = unlock_key(&shares).expect("no key");
    assert_eq!(key.len(), 32);
    let db = store.into_database();
    let row = value_row(&db, "CHECK_KEY").expect("no sentinel");
    assert_ne!(&row[12..21], b"CHECK_KEY");
    assert_eq!(open_row(&key, &row), Some(b"CHECK_KEY".to_vec()));
    assert_eq!(check_candidate(&key, &Some(row)), UnlockStatus::Unlocked);
}

#[test]
fn gen_shares_on_an_initialized_store_changes_nothing() {
    let (mut store, _) = initialized_store();
    assert_eq!(store.gen_shares(), Ok(Response::AlreadyInitialized));
    assert_eq!(store.initialize(Init::new(5, 3)), Ok(Response::Success));
    assert_eq!(store.gen_shares(), Ok(Response::AlreadyInitialized));
    let db = store.into_database();
    let before = value_row(&db, "CHECK_KEY").expect("no sentinel");
    let mut again = ShareStore::new(db);
    assert_eq!(again.gen_shares(), Ok(Response::AlreadyInitialized));
    let db = again.into_database();
    assert_eq!(value_row(&db, "CHECK_KEY"), Some(before));
    assert_eq!(config_row(&db, "INITIALIZED"), Some(vec![1, 1]));
}

#[test]
fn gen_shares_refuses_counts_that_cannot_be_split() {
    let mut store = fresh_store();
    assert_eq!(store.initialize(Init::new(2, 3)), Ok(Response::Success));
    assert_eq!(store.gen_shares(), Err(StoreError::ShareGeneration));
    let mut zero = fresh_store();
    assert_eq!(zero.initialize(Init::new(0, 0)), Ok(Response::Success));
    assert_eq!(zero.gen_shares(), Err(StoreError::ShareGeneration));
    let db = zero.into_database();
    assert_eq!(config_row(&db, "INITIALIZED"), None);
    assert_eq!(value_row(&db, "CHECK_KEY"), None);
}

#[test]
fn gen_shares_refuses_a_flag_that_is_no_boolean() {
    let db = memory_db();
    {
        let txn = db.begin_write().expect("no transaction");
        {
            let mut table = txn
                .open_table(TableDefinition::<&str, &[u8]>::new("salus_config"))
                .expect("no table");
            table.insert("INITIALIZED", &[1u8, 2u8][..]).expect("no insert");
        }
        txn.commit().expect("no commit");
    }
    let mut store = ShareStore::new(db);
    assert_eq!(store.gen_shares(), Err(StoreError::Corrupt));
}

#[test]
fn a_quorum_unlocks_the_store() {
    let (mut store, shares) = initialized_store();
    store.add_share(&shares[4]);
    store.add_share(&shares[0]);
    store.add_share(&shares[2]);
    assert_eq!(store.unlock(), Ok(UnlockStatus::Unlocked));
    assert!(store.is_unlocked());
}

#[test]
fn all_shares_unlock_the_store() {
    let (mut store, shares) = initialized_store();
    for share in &shares {
        store.add_share(share);
    }
    assert_eq!(store.unlock(), Ok(UnlockStatus::Unlocked));
    assert!(store.is_unlocked());
}

#[test]
fn two_shares_of_three_do_not_unlock() {
    let (mut store, shares) = initialized_store();
    store.add_share(&shares[0]);
    store.add_share(&shares[1]);
    assert_eq!(store.unlock(), Ok(UnlockStatus::Rejected));
    assert!(!store.is_unlocked());
    assert_eq!(store.store("x", b"y".to_vec()), Err(StoreError::StoreNotUnlocked));
}

#[test]
fn no_shares_do_not_unlock() {
    let (mut store, _) = initialized_store();
    assert_eq!(store.unlock(), Ok(UnlockStatus::NoCandidate));
    assert!(!store.is_unlocked());
}

#[test]
fn text_that_is_no_share_does_not_unlock() {
    let (mut store, _) = initialized_store();
    store.add_share("hello");
    store.add_share("a:b:c");
    assert_eq!(store.unlock(), Ok(UnlockStatus::NoCandidate));
    assert!(!store.is_unlocked());
}

#[test]
fn a_store_without_sentinel_does_not_unlock() {
    let (_, shares) = initialized_store();
    let mut other = fresh_store();
    for share in &shares[..3] {
        other.add_share(share);
    }
    assert_eq!(other.unlock(), Ok(UnlockStatus::NoCheckKey));
    assert!(!other.is_unlocked());
}

#[test]
fn shares_of_another_store_do_not_unlock() {
    let (_, foreign) = initialized_store();
    let (mut store, _) = initialized_store();
    for share in &foreign[..3] {
        store.add_share(share);
    }
    assert_eq!(store.unlock(), Ok(UnlockStatus::Rejected));
    assert!(!store.is_unlocked());
}

#[test]
fn unlock_forgets_the_shares_whatever_comes_of_it() {
    let (mut store, shares) = initialized_store();
    store.add_share(&shares[0]);
    store.add_share(&shares[1]);
    assert_eq!(store.unlock(), Ok(UnlockStatus::Rejected));
    store.add_share(&shares[2]);
    assert_eq!(store.unlock(), Ok(UnlockStatus::Rejected));
    for share in &shares[2..] {
        store.add_share(share);
    }
    assert_eq!(store.unlock(), Ok(UnlockStatus::Unlocked));
    assert_eq!(store.unlock(), Ok(UnlockStatus::NoCandidate));
    assert!(store.is_unlocked());
}

#[test]
fn a_failed_unlock_keeps_the_key_that_is_held() {
    let (mut store, shares) = unlocked_store();
    store.add_share(&shares[0]);
    assert_eq!(store.unlock(), Ok(UnlockStatus::Rejected));
    assert!(store.is_unlocked());
    assert_eq!(store.store("k", b"v".to_vec()), Ok(Response::Success));
}

#[test]
fn a_share_given_twice_counts_once() {
    let (mut store, shares) = initialized_store();
    store.add_share(&shares[0]);
    store.add_share(&shares[0]);
    store.add_share(&shares[1]);
    assert_eq!(store.unlock(), Ok(UnlockStatus::Rejected));
}

#[test]
fn a_stored_value_is_read_back() {
    let (mut store, _) = unlocked_store();
    assert_eq!(store.store("hello", b"world".to_vec()), Ok(Response::Success));
    assert_eq!(store.read("hello"), Ok(Response::Value(Some("world".to_string()))));
}

#[test]
fn a_value_stored_again_replaces_the_first() {
    let (mut store, _) = unlocked_store();
    assert_eq!(store.store("k", b"one".to_vec()), Ok(Response::Success));
    assert_eq!(store.store("k", b"two".to_vec()), Ok(Response::Success));
    assert_eq!(store.store("other", b"three".to_vec()), Ok(Response::Success));
    assert_eq!(store.read("k"), Ok(Response::Value(Some("two".to_string()))));
    assert_eq!(store.read("other"), Ok(Response::Value(Some("three".to_string()))));
}

#[test]
fn an_empty_value_is_read_back() {
    let (mut store, _) = unlocked_store();
    assert_eq!(store.store("", Vec::new()), Ok(Response::Success));
    assert_eq!(store.read(""), Ok(Response::Value(Some(String::new()))));
}

#[test]
fn a_stored_row_is_nonce_ciphertext_and_tag() {
    let (mut store, _) = unlocked_store();
    assert_eq!(store.store("hello", b"world".to_vec()), Ok(Response::Success));
    assert_eq!(store.store("again", b"world".to_vec()), Ok(Response::Success));
    let db = store.into_database();
    let first = value_row(&db, "hello").expect("no row");
    let second = value_row(&db, "again").expect("no row");
    assert_eq!(first.len(), 12 + 5 + 16);
    assert_ne!(&first[12..17], b"world");
    assert_ne!(first[..12], second[..12]);
    assert_ne!(first, second);
}

#[test]
fn reading_a_key_that_was_never_stored_finds_nothing() {
    let (store, _) = unlocked_store();
    assert_eq!(store.read("nope"), Ok(Response::KeyNotFound));
}

#[test]
fn a_locked_store_refuses_to_store_and_keeps_its_rows() {
    let (mut store, _) = initialized_store();
    assert_eq!(store.store("a", b"b".to_vec()), Err(StoreError::StoreNotUnlocked));
    let db = store.into_database();
    assert_eq!(value_row(&db, "a"), None);
}

#[test]
fn a_locked_store_refuses_to_read() {
    let (store, _) = initialized_store();
    assert_eq!(store.read("a"), Err(StoreError::StoreNotUnlocked));
    assert_eq!(fresh_store().read("CHECK_KEY"), Err(StoreError::StoreNotUnlocked));
}

#[test]
fn clear_key_locks_the_store_until_it_is_unlocked_again() {
    let (mut store, shares) = unlocked_store();
    assert_eq!(store.store("a", b"b".to_vec()), Ok(Response::Success));
    store.clear_key();
    assert!(!store.is_unlocked());
    assert_eq!(store.store("a", b"c".to_vec()), Err(StoreError::StoreNotUnlocked));
    assert_eq!(store.read("a"), Err(StoreError::StoreNotUnlocked));
    store.clear_key();
    assert!(!store.is_unlocked());
    for share in &shares[1..4] {
        store.add_share(share);
    }
    assert_eq!(store.unlock(), Ok(UnlockStatus::Unlocked));
    assert_eq!(store.read("a"), Ok(Response::Value(Some("b".to_string()))));
}

#[test]
fn a_value_outlives_the_store_that_wrote_it() {
    let (mut store, shares) = unlocked_store();
    assert_eq!(store.store("kept", b"safe".to_vec()), Ok(Response::Success));
    let mut later = ShareStore::new(store.into_database());
    assert!(!later.is_unlocked());
    for share in &shares[2..] {
        later.add_share(share);
    }
    assert_eq!(later.unlock(), Ok(UnlockStatus::Unlocked));
    assert_eq!(later.read("kept"), Ok(Response::Value(Some("safe".to_string()))));
}

#[test]
fn a_value_that_is_not_text_cannot_be_read() {
    let (mut store, _) = unlocked_store();
    assert_eq!(store.store("raw", vec![0xff, 0xfe]), Ok(Response::Success));
    assert_eq!(store.read("raw"), Err(StoreError::Corrupt));
}

#[test]
fn a_row_that_is_too_short_cannot_be_read() {
    let (mut store, _) = unlocked_store();
    assert_eq!(store.store_row("short", &[1, 2, 3]), Ok(()));
    assert_eq!(store.read("short"), Err(StoreError::Crypto));
}

#[test]
fn a_row_that_was_changed_cannot_be_read() {
    let (mut store, shares) = unlocked_store();
    assert_eq!(store.store("k", b"value".to_vec()), Ok(Response::Success));
    let db = store.into_database();
    let mut row = value_row(&db, "k").expect("no row");
    row[14] ^= 1;
    let mut store = ShareStore::new(db);
    for share in &shares[..3] {
        store.add_share(share);
    }
    assert_eq!(store.unlock(), Ok(UnlockStatus::Unlocked));
    assert_eq!(store.store_row("k", &row), Ok(()));
    assert_eq!(store.read("k"), Err(StoreError::Crypto));
}

#[test]
fn a_table_of_another_kind_is_a_storage_error() {
    let db = memory_db();
    {
        let txn = db.begin_write().expect("no transaction");
        {
            let mut table = txn
                .open_table(TableDefinition::<u64, u64>::new("salus_config"))
                .expect("no table");
            table.insert(1, 2).expect("no insert");
        }
        txn.commit().expect("no commit");
    }
    let mut store = ShareStore::new(db);
    match store.initialize(Init::new(5, 3)) {
        Err(StoreError::Storage(text)) => assert!(!text.is_empty()),
        other => panic!("no storage error: {:?}", other),
    }
    match store.get_threshold() {
        Err(StoreError::Storage(text)) => assert!(!text.is_empty()),
        other => panic!("no storage error: {:?}", other),
    }
    match store.gen_shares() {
        Err(StoreError::Storage(text)) => assert!(!text.is_empty()),
        other => panic!("no storage error: {:?}", other),
    }
}

#[test]
fn the_sentinel_plaintext_is_the_name_of_its_key() {
    assert_eq!(check_plaintext_bytes(), b"CHECK_KEY".to_vec());
    assert!(is_check_plaintext(b"CHECK_KEY"));
    assert!(!is_check_plaintext(b"CHECK_KEZ"));
    assert!(!is_check_plaintext(b"CHECK_KE"));
    assert!(!is_check_plaintext(b"CHECK_KEY "));
    assert!(!is_check_plaintext(b""));
}

#[test]
fn a_flag_row_stands_for_its_boolean() {
    assert_eq!(flag_of_row(&None), Ok(false));
    assert_eq!(flag_of_row(&Some(vec![1, 1])), Ok(true));
    assert_eq!(flag_of_row(&Some(vec![1, 0])), Ok(false));
    assert_eq!(flag_of_row(&Some(vec![1, 2])), Err(StoreError::Corrupt));
    assert_eq!(flag_of_row(&Some(vec![])), Err(StoreError::Corrupt));
    assert_eq!(flag_of_row(&Some(vec![0])), Err(StoreError::Corrupt));
}

#[test]
fn a_count_row_stands_for_its_u8() {
    assert_eq!(count_of_row(&None, 5), Ok(5));
    assert_eq!(count_of_row(&None, 3), Ok(3));
    assert_eq!(count_of_row(&Some(vec![1, 9]), 5), Ok(9));
    assert_eq!(count_of_row(&Some(vec![2, 9]), 5), Err(StoreError::Corrupt));
    assert_eq!(count_of_row(&Some(vec![0]), 5), Err(StoreError::Corrupt));
}

#[test]
fn a_candidate_is_checked_against_the_sentinel_row() {
    let key = [7u8; 32];
    assert_eq!(check_candidate(&key, &None), UnlockStatus::NoCheckKey);
    assert_eq!(check_candidate(&key, &Some(vec![1, 2, 3])), UnlockStatus::Rejected);
    assert_eq!(check_candidate(&key, &Some(vec![0; 40])), UnlockStatus::Rejected);
    assert_eq!(check_candidate(&[7u8; 16], &Some(vec![0; 40])), UnlockStatus::Rejected);
}

#[test]
fn reading_a_row_gives_not_found_or_the_failure() {
    let key = [7u8; 32];
    assert_eq!(read_row(&key, &None), Ok(Response::KeyNotFound));
    assert_eq!(read_row(&key, &Some(vec![0; 5])), Err(StoreError::Crypto));
    assert_eq!(read_row(&key, &Some(vec![0; 40])), Err(StoreError::Crypto));
    assert_eq!(open_row(&key, &[0; 40]), None);
}

#[test]
fn a_master_key_is_32_bytes() {
    assert!(MasterKey::new(vec![1; 32]).is_some());
    assert!(MasterKey::new(vec![1; 31]).is_none());
    assert!(MasterKey::new(vec![1; 33]).is_none());
    assert!(MasterKey::new(vec![]).is_none());
    let key = MasterKey::new(vec![5; 32]).expect("no key");
    assert_eq!(key.as_slice(), &[5u8; 32]);
    key.wipe();
}

#[test]
fn zeroize_overwrites_every_byte() {
    let mut bytes = vec![1, 2, 3, 255];
    salus::seal::zeroize(&mut bytes);
    assert_eq!(bytes, vec![0, 0, 0, 0]);
    let mut empty: Vec<u8> = vec![];
    salus::seal::zeroize(&mut empty);
    assert_eq!(empty, Vec::<u8>::new());
}

#[test]
fn every_unlock_begins_the_next_lease() {
    let (mut store, shares) = initialized_store();
    assert_eq!(store.epoch(), 0);
    for share in &shares[..3] {
        store.add_share(share);
    }
    assert_eq!(store.unlock(), Ok(UnlockStatus::Unlocked));
    assert_eq!(store.epoch(), 1);
    assert_eq!(store.unlock(), Ok(UnlockStatus::NoCandidate));
    assert_eq!(store.epoch(), 1);
    assert!(!store.expire(0));
    assert!(store.is_unlocked());
    assert!(store.expire(1));
    assert!(!store.is_unlocked());
}
