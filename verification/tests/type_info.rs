use lib::ids::{EntityId, Mutability, StorageId, TypeId};
use lib::scheduler::info::{BatchInfo, Conflict, SystemId, SystemInfo, TypeInfo, WorkloadInfo};
use lib::text::push_decimal;

fn info(name: &'static str, storage: u64, mutability: Mutability, is_send: bool, is_sync: bool) -> TypeInfo {
    TypeInfo { name, mutability, storage_id: StorageId::TypeId(TypeId(storage)), is_send, is_sync }
}

#[test]
fn type_info_debug_send_sync() {
    assert_eq!(
        info("Pos", 42, Mutability::Shared, true, true).debug_string(),
        "TypeInfo { name: \"Pos\", mutability: Shared, storage_id: TypeId(TypeId(42)) }"
    );
}

#[test]
fn type_info_debug_not_send_or_sync() {
    assert_eq!(
        info("Pos", 1, Mutability::Exclusive, false, true).debug_string(),
        "TypeInfo { name: shipyard::NonSend<Pos>, mutability: Exclusive, storage_id: TypeId(TypeId(1)) }"
    );
    assert_eq!(
        info("Pos", 1, Mutability::Exclusive, true, false).debug_string(),
        "TypeInfo { name: shipyard::NonSync<Pos>, mutability: Exclusive, storage_id: TypeId(TypeId(1)) }"
    );
    let custom = TypeInfo {
        name: "Pos",
        mutability: Mutability::Shared,
        storage_id: StorageId::Custom(9),
        is_send: false,
        is_sync: false,
    };
    assert_eq!(
        custom.debug_string(),
        "TypeInfo { name: shipyard::NonSendSync<Pos>, mutability: Shared, storage_id: Custom(9) }"
    );
}

#[test]
fn type_info_debug_escapes_name() {
    assert_eq!(
        info("a\"b", 0, Mutability::Shared, true, true).debug_string(),
        "TypeInfo { name: \"a\\\"b\", mutability: Shared, storage_id: TypeId(TypeId(0)) }"
    );
}

#[test]
fn type_info_eq_looks_at_storage_and_mutability() {
    let a = info("A", 3, Mutability::Shared, true, true);
    let b = info("B", 3, Mutability::Shared, false, false);
    let c = info("A", 3, Mutability::Exclusive, true, true);
    let d = info("A", 4, Mutability::Shared, true, true);
    assert!(a == a);
    assert!(a == b && b == a);
    assert!(a != c);
    assert!(a != d);
    let custom = TypeInfo { storage_id: StorageId::Custom(3), ..a };
    assert!(a != custom);
}

#[test]
fn type_info_eq_pair() {
    let a = info("A", 3, Mutability::Shared, true, true);
    assert!(a == (TypeId(3), Mutability::Shared));
    assert!(a != (TypeId(3), Mutability::Exclusive));
    assert!(a != (TypeId(4), Mutability::Shared));
    let custom = TypeInfo { storage_id: StorageId::Custom(3), ..a };
    assert!(custom != (TypeId(3), Mutability::Shared));
    let b = info("B", 3, Mutability::Shared, false, true);
    assert!(b == (TypeId(3), Mutability::Shared) && a == b);
}

#[test]
fn decimal_text() {
    let mut s = String::from("n=");
    push_decimal(&mut s, 0);
    assert_eq!(s, "n=0");
    let mut s = String::new();
    push_decimal(&mut s, 1907);
    assert_eq!(s, "1907");
    let mut s = String::new();
    push_decimal(&mut s, u64::MAX);
    assert_eq!(s, "18446744073709551615");
}

#[test]
fn ids_debug() {
    assert_eq!(EntityId { index: 3, gen: 1 }.debug_string(), "EId(3.1)");
    assert_eq!(TypeId(10).debug_string(), "TypeId(10)");
    assert_eq!(StorageId::Custom(0).debug_string(), "Custom(0)");
    assert_eq!(StorageId::TypeId(TypeId(5)).debug_string(), "TypeId(TypeId(5))");
    assert_eq!(Mutability::Shared.debug_string(), "Shared");
    assert_eq!(Mutability::Exclusive.debug_string(), "Exclusive");
    assert!(StorageId::TypeId(TypeId(5)).is_type(&TypeId(5)));
    assert!(!StorageId::TypeId(TypeId(5)).is_type(&TypeId(6)));
    assert!(!StorageId::Custom(5).is_type(&TypeId(5)));
}

#[test]
fn workload_info_holds_its_batches() {
    let ty = info("Pos", 1, Mutability::Shared, true, true);
    let system = SystemInfo {
        name: "move",
        type_id: TypeId(8),
        borrow: vec![ty],
        conflict: Some(Conflict::Borrow { system: SystemId { name: "draw", type_id: TypeId(9) }, type_info: ty }),
    };
    let workload = WorkloadInfo {
        name: std::borrow::Cow::Borrowed("main"),
        batch_info: vec![BatchInfo { systems: vec![system] }],
    };
    let copy = workload.clone();
    assert_eq!(copy.name, "main");
    assert_eq!(copy.batch_info.len(), 1);
    assert_eq!(copy.batch_info[0].systems[0].name, "move");
    assert!(copy.batch_info[0].systems[0].borrow[0] == ty);
    assert!(matches!(copy.batch_info[0].systems[0].conflict, Some(Conflict::Borrow { .. })));
    assert!(matches!(Conflict::NotSendSync, Conflict::NotSendSync));
}
