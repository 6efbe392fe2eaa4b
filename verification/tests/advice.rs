use lightweight_mmap::MemoryAdvice;

#[test]
fn hint_bits_are_distinct() {
    assert_eq!(MemoryAdvice::none().bits, 0);
    assert_eq!(MemoryAdvice::will_need().bits, 0b001);
    assert_eq!(MemoryAdvice::sequential().bits, 0b010);
    assert_eq!(MemoryAdvice::random().bits, 0b100);
}

#[test]
fn union_combines_hints() {
    let a = MemoryAdvice::will_need().union(MemoryAdvice::sequential());
    assert_eq!(a.bits, 0b011);
    assert!(a.contains(MemoryAdvice::will_need()));
    assert!(a.contains(MemoryAdvice::sequential()));
    assert!(!a.contains(MemoryAdvice::random()));
    assert!(!a.is_empty());
}

#[test]
fn empty_advice_contains_only_itself() {
    let none = MemoryAdvice::none();
    assert!(none.is_empty());
    assert!(none.contains(MemoryAdvice::none()));
    assert!(!none.contains(MemoryAdvice::will_need()));
}

#[test]
fn union_is_idempotent_and_commutative() {
    let a = MemoryAdvice::random();
    let b = MemoryAdvice::sequential();
    assert_eq!(a.union(a), a);
    assert_eq!(a.union(b), b.union(a));
}
