use escrow::address::Address;
use escrow::registry::Registry;

fn key(n: u8) -> Address {
    Address { bytes: [n; 32] }
}

#[test]
fn empty_registry_keeps_nothing() {
    let r: Registry<u64> = Registry::new();
    assert_eq!(r.get(&key(1)), None);
}

#[test]
fn put_keeps_and_replaces() {
    let mut r: Registry<u64> = Registry::new();
    r.put(key(1), 10);
    r.put(key(2), 20);
    assert_eq!(r.get(&key(1)), Some(10));
    assert_eq!(r.get(&key(2)), Some(20));
    assert_eq!(r.get(&key(3)), None);
    r.put(key(1), 11);
    assert_eq!(r.get(&key(1)), Some(11));
    assert_eq!(r.get(&key(2)), Some(20));
}

#[test]
fn take_drops_one_record() {
    let mut r: Registry<u64> = Registry::new();
    r.put(key(1), 10);
    r.put(key(2), 20);
    r.put(key(3), 30);
    r.take(&key(2));
    assert_eq!(r.get(&key(1)), Some(10));
    assert_eq!(r.get(&key(2)), None);
    assert_eq!(r.get(&key(3)), Some(30));
    r.take(&key(2));
    r.take(&key(9));
    assert_eq!(r.get(&key(1)), Some(10));
    assert_eq!(r.get(&key(3)), Some(30));
    r.take(&key(1));
    r.take(&key(3));
    assert_eq!(r, Registry::new());
}
