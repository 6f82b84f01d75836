use singleton::Singleton;
use singleton::SingletonState;

struct A(usize);
impl Default for A {
    fn default() -> Self {
        A(42)
    }
}

struct B(usize);
impl Default for B {
    fn default() -> Self {
        B(100)
    }
}

#[test]
fn it_works() {
    let mut singleton_a: Singleton<A> = Singleton::new();
    let mut singleton_b: Singleton<B> = Singleton::new();
    assert!(singleton_a.get_opt().is_none());
    assert!(singleton_b.get_opt().is_none());
    let a1 = singleton_a.get().0;
    assert!(!singleton_a.get_opt().is_none());
    let a2 = singleton_a.get().0;
    assert_eq!(a1, a2);
    let _b = singleton_b.get().0;
    assert!(!singleton_b.get_opt().is_none());
}

#[test]
fn two_independent_cells() {
    let mut cell_a: Singleton<A> = Singleton::new();
    let mut cell_b: Singleton<B> = Singleton::new();
    assert!(cell_a.get_opt().is_none());
    assert!(cell_b.get_opt().is_none());
    assert_eq!(cell_a.get().0, 42);
    assert!(cell_a.get_opt().is_some());
    assert!(cell_b.get_opt().is_none());
    assert_eq!(cell_a.get().0, 42);
    assert_eq!(cell_b.get().0, 100);
    assert!(cell_b.get_opt().is_some());
}

#[test]
fn query_absent_then_present() {
    let mut cell: Singleton<u64> = Singleton::new();
    assert!(cell.get_opt().is_none());
    let v = *cell.get();
    assert_eq!(v, 0);
    match cell.get_opt() {
        Some(seen) => assert_eq!(*seen, 0),
        None => panic!("a resolved cell must report its value"),
    }
}

#[test]
fn repeated_get_returns_same_value() {
    let mut cell: Singleton<A> = Singleton::new();
    let first = cell.get().0;
    let second = cell.get().0;
    assert_eq!(first, 42);
    assert_eq!(first, second);
}

#[test]
fn custom_initializer_runs_once() {
    let mut cell: Singleton<usize> = Singleton::new();
    let v1 = *cell.get_or_insert_with(|| 7);
    let v2 = *cell.get_or_insert_with(|| 9);
    assert_eq!(v1, 7);
    assert_eq!(v2, 7);
}

#[test]
fn finalize_makes_cell_report_absent() {
    let mut cell: Singleton<A> = Singleton::new();
    assert_eq!(cell.get().0, 42);
    assert!(cell.get_opt().is_some());
    cell.finalize();
    assert!(cell.get_opt().is_none());
}

#[test]
fn finalize_before_first_use() {
    let mut cell: Singleton<A> = Singleton::new();
    cell.finalize();
    assert!(cell.get_opt().is_none());
}

#[test]
fn state_reflects_lifecycle() {
    let mut cell: Singleton<A> = Singleton::new();
    assert_eq!(cell.state(), SingletonState::Initial);
    cell.get();
    assert_eq!(cell.state(), SingletonState::Ready);
    cell.finalize();
    assert_eq!(cell.state(), SingletonState::Finalized);
}

#[test]
fn default_cell_starts_empty() {
    let cell: Singleton<A> = Default::default();
    assert!(cell.get_opt().is_none());
}
