use singleton::PreemptiveSingleton;
use singleton::Registry;
use singleton::Singleton;

#[test]
fn first_registration_installs_hook() {
    let mut registry = Registry::new();
    assert_eq!(registry.len(), 0);
    let install_first = registry.register(10);
    let install_second = registry.register(20);
    assert!(install_first);
    assert!(!install_second);
    assert_eq!(registry.len(), 2);
}

#[test]
fn hook_drains_in_registration_order() {
    let mut registry = Registry::new();
    registry.register(7);
    registry.register(3);
    registry.register(5);
    let order = registry.drain();
    assert_eq!(order, vec![7, 3, 5]);
    assert_eq!(registry.len(), 0);
}

#[test]
fn initialization_registers_destructor_entries() {
    let mut registry = Registry::new();
    let mut cell_a: Singleton<usize> = Singleton::new();
    let mut cell_b: PreemptiveSingleton<usize> = PreemptiveSingleton::new();
    let a = *cell_a.get_or_insert_registered(|| 42, &mut registry, 1);
    assert_eq!(a, 42);
    assert_eq!(registry.len(), 1);
    let b = *cell_b.get_or_insert_registered(9, || 100, &mut registry, 2);
    assert_eq!(b, 100);
    assert_eq!(registry.len(), 2);
    // A repeated access resolves without a second registration.
    let a_again = *cell_a.get_or_insert_registered(|| 7, &mut registry, 3);
    assert_eq!(a_again, 42);
    assert_eq!(registry.len(), 2);
    let order = registry.drain();
    assert_eq!(order, vec![1, 2]);
}

#[test]
fn two_cells_register_two_entries() {
    let mut registry = Registry::new();
    let install_a = registry.register(1);
    let install_b = registry.register(2);
    assert!(install_a);
    assert!(!install_b);
    let order = registry.drain();
    assert_eq!(order, vec![1, 2]);
    assert_eq!(registry.len(), 0);
}
