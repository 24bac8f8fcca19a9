use core::hash::Hash;
use h64::H64;
use h64::H64Allocator;
use h64::H64HashMap;
use h64::H64HashSet;
use h64::H64Hasher;

fn test_values() -> impl Iterator<Item = u64> {
    Iterator::chain(0..1000, u64::MAX - 1000..u64::MAX)
}

#[test]
fn unhash_undos_hash() {
    for i in test_values() {
        assert_eq!(H64::hash(i).unhash(), i);
    }
}

#[test]
fn hasher_does_nothing() {
    for i in test_values() {
        let h64 = H64::hash(i);
        let mut hasher = H64Hasher::default();
        Hash::hash(&h64, &mut hasher);
        assert_eq!(hasher.finish(), h64.to_bits());
    }
}

#[test]
fn unhash_undos_hash_sampled() {
    let mut x: u64 = 0x9E3779B97F4A7C15;
    for _ in 0..1000 {
        x = x.wrapping_mul(6364136223846793005).wrapping_add(1442695040888963407);
        assert_eq!(H64::hash(x).unhash(), x);
    }
}

#[test]
fn mix_is_injective_on_samples() {
    let mut seen = std::collections::HashSet::new();
    let mut count: u64 = 0;
    for i in test_values() {
        seen.insert(H64::hash(i).to_bits());
        count += 1;
    }
    assert_eq!(seen.len() as u64, count);
}

#[test]
fn allocator_is_deterministic() {
    let mut allocator = H64Allocator::new();
    let first = allocator.allocate();
    let second = allocator.allocate();
    let third = allocator.allocate();
    assert!(first == H64::hash(0));
    assert!(second == H64::hash(1));
    assert!(third == H64::hash(2));
    assert_eq!(first.unhash(), 0);
    assert_eq!(second.unhash(), 1);
    assert_eq!(third.unhash(), 2);
}

#[test]
fn formatting_reveals_the_original() {
    assert_eq!(H64::hash(42).to_string(), "42");
    assert_ne!(H64::hash(42).to_bits(), 42);
    assert_eq!(H64::hash(0).to_string(), "0");
    assert_eq!(H64::hash(10).to_string(), "10");
    assert_eq!(H64::hash(u64::MAX).to_string(), "18446744073709551615");
}

#[test]
fn equality_follows_the_bits() {
    assert!(H64::hash(5) == H64::hash(5));
    assert!(H64::hash(5) != H64::hash(6));
}

#[test]
fn identity_keyed_containers() {
    let mut map: H64HashMap<H64, u64> = H64HashMap::default();
    let mut set: H64HashSet<H64> = H64HashSet::default();
    for i in 0..100 {
        map.insert(H64::hash(i), i);
        set.insert(H64::hash(i));
    }
    assert_eq!(map.len(), 100);
    assert_eq!(set.len(), 100);
    for i in 0..100 {
        assert_eq!(map.get(&H64::hash(i)), Some(&i));
        assert!(set.contains(&H64::hash(i)));
    }
    assert_eq!(map.get(&H64::hash(100)), None);
    assert!(!set.contains(&H64::hash(100)));
}

#[test]
fn hasher_overwrites_instead_of_accumulating() {
    let mut hasher = H64Hasher::new();
    hasher.write_u64(7);
    hasher.write_u64(9);
    assert_eq!(hasher.finish(), 9);
}
