use singleton::PreemptiveSingleton;
use singleton::SingletonState;

struct B(usize);
impl Default for B {
    fn default() -> Self {
        B(100)
    }
}

const OWNER: u64 = 1;
const INTRUDER: u64 = 2;

#[test]
fn owner_initializes_and_keeps_access() {
    let mut cell: PreemptiveSingleton<B> = PreemptiveSingleton::new();
    assert!(cell.get_opt(OWNER).is_none());
    assert_eq!(cell.get(OWNER).0, 100);
    assert_eq!(cell.get(OWNER).0, 100);
    match cell.get_opt(OWNER) {
        Some(seen) => assert_eq!(seen.0, 100),
        None => panic!("the owning thread must keep seeing its value"),
    }
}

#[test]
fn non_owner_query_sees_absent() {
    let mut cell: PreemptiveSingleton<B> = PreemptiveSingleton::new();
    assert_eq!(cell.get(OWNER).0, 100);
    assert!(cell.get_opt(OWNER).is_some());
    assert!(cell.get_opt(INTRUDER).is_none());
    assert!(cell.get_opt(OWNER).is_some());
}

#[test]
fn custom_initializer_records_owner() {
    let mut cell: PreemptiveSingleton<usize> = PreemptiveSingleton::new();
    let v1 = *cell.get_or_insert_with(OWNER, || 7);
    let v2 = *cell.get_or_insert_with(OWNER, || 9);
    assert_eq!(v1, 7);
    assert_eq!(v2, 7);
    assert!(cell.get_opt(INTRUDER).is_none());
}

#[test]
fn finalize_is_idempotent() {
    let mut cell: PreemptiveSingleton<B> = PreemptiveSingleton::new();
    cell.finalize();
    assert!(cell.get_opt(OWNER).is_none());
    assert_eq!(cell.get(OWNER).0, 100);
    cell.finalize();
    assert!(cell.get_opt(OWNER).is_none());
    cell.finalize();
    assert!(cell.get_opt(OWNER).is_none());
}

#[test]
fn owner_is_recorded() {
    let mut cell: PreemptiveSingleton<B> = PreemptiveSingleton::new();
    assert_eq!(cell.owner(), None);
    assert_eq!(cell.state(), SingletonState::Initial);
    cell.get(OWNER);
    assert_eq!(cell.owner(), Some(OWNER));
    assert_eq!(cell.state(), SingletonState::Ready);
}

#[test]
fn default_exclusive_cell_starts_empty() {
    let cell: PreemptiveSingleton<B> = Default::default();
    assert!(cell.get_opt(OWNER).is_none());
}
