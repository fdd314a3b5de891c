use offchain_storage::{Access, Error, Event, ExternalStorage, MetadataStore, Module, UserData};
use std::cell::Cell;
use std::collections::HashMap;

/// Simulates an external database, and counts the calls made to it.
struct DB {
    payloads: HashMap<Vec<u8>, Vec<u8>>,
    calls: Cell<usize>,
}

impl DB {
    fn new() -> Self {
        DB { payloads: HashMap::new(), calls: Cell::new(0) }
    }

    fn holding(key: &[u8], value: &[u8]) -> Self {
        let mut db = DB::new();
        db.payloads.insert(key.to_vec(), value.to_vec());
        db
    }

    fn payload(&self, key: &[u8]) -> Option<Vec<u8>> {
        self.payloads.get(key).cloned()
    }
}

impl ExternalStorage for DB {
    fn get(&self, key: Vec<u8>) -> Vec<u8> {
        self.calls.set(self.calls.get() + 1);
        self.payloads.get(&key).cloned().unwrap_or_default()
    }

    fn set(&mut self, key: Vec<u8>, value: Vec<u8>) {
        self.calls.set(self.calls.get() + 1);
        self.payloads.insert(key, value);
    }

    fn delete(&mut self, key: Vec<u8>) {
        self.calls.set(self.calls.get() + 1);
        self.payloads.remove(&key);
    }
}

const A: u64 = 1;
const B: u64 = 2;

/// A gateway that holds one record, for `key`.
fn gateway_with(key: &[u8], author: u64, access: Access, create_on_write: bool) -> Module<u64> {
    let mut records = MetadataStore::new();
    records.insert(key.to_vec(), UserData { author, access });
    Module::with_data(records, create_on_write)
}

#[test]
fn do_external_storage() {
    let mut db = DB::new();
    let mut offchain_storage: Module<u64> = Module::new(true);
    let key: Vec<u8> = b"key".to_vec();
    let value: Vec<u8> = b"key".to_vec();
    assert!(offchain_storage.write_data(&mut db, 1, key.clone(), value).is_ok());
    assert!(offchain_storage.read_data(&db, 2, key.clone()).is_ok());
    assert!(offchain_storage.delete_data(&mut db, 1, key).is_ok());
}

#[test]
fn write_read_delete_then_read_finds_nothing() {
    let mut db = DB::new();
    let mut gateway: Module<u64> = Module::new(true);
    let key = b"key".to_vec();

    assert_eq!(gateway.write_data(&mut db, A, key.clone(), b"key".to_vec()), Ok(()));
    assert_eq!(
        gateway.data().find(&key),
        Some(&UserData { author: A, access: Access::Read })
    );
    assert_eq!(gateway.read_data(&db, B, key.clone()), Ok(Event::GetData(b"key".to_vec())));
    assert_eq!(gateway.delete_data(&mut db, A, key.clone()), Ok(()));
    assert_eq!(gateway.read_data(&db, B, key.clone()), Err(Error::NoneData));
    assert!(!gateway.data().contains_key(&key));
    assert_eq!(db.payload(b"key"), None);
}

#[test]
fn avoid_refuses_others_and_lets_the_author_read() {
    let db = DB::holding(b"secret", b"payload");
    let gateway = gateway_with(b"secret", A, Access::Avoid, false);
    assert_eq!(gateway.read_data(&db, B, b"secret".to_vec()), Err(Error::PermissionDenied));
    assert_eq!(
        gateway.read_data(&db, A, b"secret".to_vec()),
        Ok(Event::GetData(b"payload".to_vec()))
    );
}

#[test]
fn missing_record_refuses_read_write_and_delete() {
    let mut db = DB::holding(b"other", b"payload");
    let mut gateway = gateway_with(b"other", A, Access::Write, false);
    let key = b"key".to_vec();

    assert_eq!(gateway.read_data(&db, A, key.clone()), Err(Error::NoneData));
    assert_eq!(gateway.write_data(&mut db, A, key.clone(), b"new".to_vec()), Err(Error::NoneData));
    assert_eq!(gateway.delete_data(&mut db, A, key.clone()), Err(Error::NoneData));

    // nothing changed, and the storage was never called
    assert!(!gateway.data().contains_key(&key));
    assert_eq!(
        gateway.data().find(&b"other".to_vec()),
        Some(&UserData { author: A, access: Access::Write })
    );
    assert_eq!(db.payload(b"key"), None);
    assert_eq!(db.payload(b"other"), Some(b"payload".to_vec()));
    assert_eq!(db.calls.get(), 0);
}

#[test]
fn missing_record_refuses_read_and_delete_also_where_writes_create() {
    let mut db = DB::new();
    let mut gateway: Module<u64> = Module::new(true);
    assert_eq!(gateway.read_data(&db, A, b"key".to_vec()), Err(Error::NoneData));
    assert_eq!(gateway.delete_data(&mut db, A, b"key".to_vec()), Err(Error::NoneData));
    assert_eq!(db.calls.get(), 0);
}

#[test]
fn write_creates_a_record_for_the_writer() {
    let mut db = DB::new();
    let mut gateway: Module<u64> = Module::new(true);
    assert!(gateway.create_on_write());
    assert_eq!(gateway.write_data(&mut db, B, b"key".to_vec(), b"value".to_vec()), Ok(()));
    assert_eq!(
        gateway.data().find(&b"key".to_vec()),
        Some(&UserData { author: B, access: Access::Read })
    );
    assert_eq!(db.payload(b"key"), Some(b"value".to_vec()));
    assert_eq!(db.calls.get(), 1);
}

#[test]
fn author_is_never_refused() {
    let levels = [Access::Avoid, Access::Read, Access::Write];
    for access in levels {
        let mut db = DB::holding(b"key", b"old");
        let mut gateway = gateway_with(b"key", A, access, false);
        assert_eq!(
            gateway.read_data(&db, A, b"key".to_vec()),
            Ok(Event::GetData(b"old".to_vec()))
        );
        assert_eq!(gateway.write_data(&mut db, A, b"key".to_vec(), b"new".to_vec()), Ok(()));
        assert_eq!(db.payload(b"key"), Some(b"new".to_vec()));
        assert_eq!(gateway.delete_data(&mut db, A, b"key".to_vec()), Ok(()));
        assert_eq!(db.payload(b"key"), None);
    }
}

#[test]
fn avoid_refuses_every_operation_of_others() {
    let mut db = DB::holding(b"key", b"old");
    let mut gateway = gateway_with(b"key", A, Access::Avoid, true);
    assert_eq!(gateway.read_data(&db, B, b"key".to_vec()), Err(Error::PermissionDenied));
    assert_eq!(
        gateway.write_data(&mut db, B, b"key".to_vec(), b"new".to_vec()),
        Err(Error::PermissionDenied)
    );
    assert_eq!(gateway.delete_data(&mut db, B, b"key".to_vec()), Err(Error::PermissionDenied));

    assert_eq!(
        gateway.data().find(&b"key".to_vec()),
        Some(&UserData { author: A, access: Access::Avoid })
    );
    assert_eq!(db.payload(b"key"), Some(b"old".to_vec()));
    assert_eq!(db.calls.get(), 0);
}

#[test]
fn read_and_write_levels_let_others_read() {
    for access in [Access::Read, Access::Write] {
        let db = DB::holding(b"key", b"payload");
        let gateway = gateway_with(b"key", A, access, false);
        assert_eq!(
            gateway.read_data(&db, B, b"key".to_vec()),
            Ok(Event::GetData(b"payload".to_vec()))
        );
    }
}

#[test]
fn read_level_lets_others_write_and_delete_too() {
    let mut db = DB::holding(b"key", b"old");
    let mut gateway = gateway_with(b"key", A, Access::Read, false);
    assert_eq!(gateway.write_data(&mut db, B, b"key".to_vec(), b"new".to_vec()), Ok(()));
    assert_eq!(db.payload(b"key"), Some(b"new".to_vec()));
    assert_eq!(gateway.delete_data(&mut db, B, b"key".to_vec()), Ok(()));
    assert!(!gateway.data().contains_key(&b"key".to_vec()));
}

#[test]
fn write_keeps_author_and_access() {
    for access in [Access::Read, Access::Write] {
        for create_on_write in [false, true] {
            let mut db = DB::holding(b"key", b"old");
            let mut gateway = gateway_with(b"key", A, access, create_on_write);
            assert_eq!(gateway.write_data(&mut db, B, b"key".to_vec(), b"new".to_vec()), Ok(()));
            assert_eq!(gateway.data().find(&b"key".to_vec()), Some(&UserData { author: A, access }));
            assert_eq!(db.payload(b"key"), Some(b"new".to_vec()));
        }
    }
}

#[test]
fn delete_removes_record_and_payload() {
    let mut db = DB::holding(b"key", b"payload");
    db.payloads.insert(b"other".to_vec(), b"stays".to_vec());
    let mut records = MetadataStore::new();
    records.insert(b"key".to_vec(), UserData { author: A, access: Access::Read });
    records.insert(b"other".to_vec(), UserData { author: B, access: Access::Avoid });
    let mut gateway = Module::with_data(records, false);

    assert_eq!(gateway.delete_data(&mut db, A, b"key".to_vec()), Ok(()));
    assert!(!gateway.data().contains_key(&b"key".to_vec()));
    assert_eq!(db.payload(b"key"), None);
    assert_eq!(
        gateway.data().find(&b"other".to_vec()),
        Some(&UserData { author: B, access: Access::Avoid })
    );
    assert_eq!(db.payload(b"other"), Some(b"stays".to_vec()));
    assert_eq!(gateway.delete_data(&mut db, A, b"key".to_vec()), Err(Error::NoneData));
}

#[test]
fn read_hands_out_the_bytes_of_the_storage() {
    let db = DB::holding(&[0xff, 0x00], &[1, 2, 3, 0, 255]);
    let gateway = gateway_with(&[0xff, 0x00], A, Access::Read, false);
    let event = gateway.read_data(&db, B, vec![0xff, 0x00]);
    assert_eq!(event, Ok(Event::GetData(vec![1, 2, 3, 0, 255])));
    assert_eq!(db.calls.get(), 1);
}

#[test]
fn read_of_a_record_without_payload_hands_out_what_the_storage_answers() {
    let db = DB::new();
    let gateway = gateway_with(b"key", A, Access::Read, false);
    assert_eq!(gateway.read_data(&db, B, b"key".to_vec()), Ok(Event::GetData(Vec::new())));
}

#[test]
fn each_operation_calls_the_storage_once() {
    let mut db = DB::holding(b"key", b"old");
    let mut gateway = gateway_with(b"key", A, Access::Write, false);
    assert!(gateway.read_data(&db, B, b"key".to_vec()).is_ok());
    assert_eq!(db.calls.get(), 1);
    assert!(gateway.write_data(&mut db, B, b"key".to_vec(), b"new".to_vec()).is_ok());
    assert_eq!(db.calls.get(), 2);
    assert!(gateway.delete_data(&mut db, B, b"key".to_vec()).is_ok());
    assert_eq!(db.calls.get(), 3);
}

#[test]
fn no_operation_reports_an_external_error() {
    let mut db = DB::new();
    let mut gateway: Module<u64> = Module::new(false);
    let outcomes = [
        gateway.write_data(&mut db, A, b"key".to_vec(), b"v".to_vec()),
        gateway.delete_data(&mut db, A, b"key".to_vec()),
        gateway.read_data(&db, A, b"key".to_vec()).map(|_| ()),
    ];
    for outcome in outcomes {
        assert_ne!(outcome, Err(Error::ExternalError));
    }
}

#[test]
fn get_data_is_the_record_or_the_default_record() {
    let gateway = gateway_with(b"key", A, Access::Avoid, false);
    assert_eq!(gateway.get_data(&b"key".to_vec()), UserData { author: A, access: Access::Avoid });
    assert_eq!(gateway.get_data(&b"none".to_vec()), UserData { author: 0, access: Access::Read });
}

#[test]
fn new_gateway_keeps_its_choice_and_no_record() {
    let gateway: Module<u64> = Module::new(false);
    assert!(!gateway.create_on_write());
    assert!(!gateway.data().contains_key(&b"key".to_vec()));
    let gateway: Module<u64> = Module::new(true);
    assert!(gateway.create_on_write());
}
