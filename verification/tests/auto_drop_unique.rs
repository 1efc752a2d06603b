use std::fmt::Debug;
use std::mem::{align_of, size_of};

use dynrsaur::erasure::auto_drop_unique::{AutoDropUnique, StackOrHeap};
use dynrsaur::erasure::erasable::Erasable;
use dynrsaur::erasure::erase::Erase;
use dynrsaur::erasure::erased::Erased;
use dynrsaur::erasure::erasure::Erasure;
use dynrsaur::erasure::laws::erase_then_downcast;

#[test]
fn single_word_size() {
    const SINGLE_WORD_SIZE: usize = size_of::<usize>();

    assert_eq!(size_of::<AutoDropUnique>(), SINGLE_WORD_SIZE);
    assert_eq!(size_of::<AutoDropUnique<u8>>(), SINGLE_WORD_SIZE);
    assert_eq!(size_of::<AutoDropUnique<usize>>(), SINGLE_WORD_SIZE);
    assert_eq!(size_of::<AutoDropUnique<String>>(), SINGLE_WORD_SIZE);
    assert_eq!(size_of::<AutoDropUnique<&str>>(), SINGLE_WORD_SIZE);
}

#[test]
fn single_word_align() {
    const SINGLE_WORD_ALIGN: usize = align_of::<usize>();

    assert_eq!(align_of::<AutoDropUnique>(), SINGLE_WORD_ALIGN);
    assert_eq!(align_of::<AutoDropUnique<u8>>(), SINGLE_WORD_ALIGN);
    assert_eq!(align_of::<AutoDropUnique<usize>>(), SINGLE_WORD_ALIGN);
    assert_eq!(align_of::<AutoDropUnique<String>>(), SINGLE_WORD_ALIGN);
    assert_eq!(align_of::<AutoDropUnique<&str>>(), SINGLE_WORD_ALIGN);
}

#[test]
fn into_inner() {
    fn inner<T: Clone + Eq + Debug + Erasable>(value: T) {
        let erased = AutoDropUnique::new(value.clone());

        let unerased = erased.into_inner();

        assert_eq!(unerased, value);
    }

    inner(String::from("this is a test"));
    inner(123usize);
    inner(42u8);
    inner(32u16);
}

#[test]
fn auto_drop_unique_readback() {
    fn inner<T: Clone + Eq + Debug + Erasable>(value: T) {
        let erased = AutoDropUnique::new(value.clone()).erase();

        let unerased: T = Erasure::downcast_unchecked(erased);

        assert_eq!(unerased, value);
    }

    inner(String::from("this is a test"));
    inner(123usize);
    inner(42u8);
    inner(32u16);
}

#[test]
fn readback_into_ref() {
    fn inner<T: Clone + Eq + Debug + Erasable>(value: T) {
        let erased = AutoDropUnique::new(value.clone()).erase();

        let unerased: &T = (&erased).downcast_unchecked();

        assert_eq!(unerased, &value);
    }

    inner(String::from("this is a test"));
    inner(123usize);
    inner(42u8);
    inner(32u16);
}

#[test]
fn zero_sized_round_trip() {
    let unique = AutoDropUnique::<()>::new(());

    let erased = unique.erase();

    let _unit: () = erased.downcast_unchecked();
}

#[test]
fn erase_is_pure_relabeling() {
    let erased: AutoDropUnique<Erased> = Erase::<usize>::erase(700usize);

    let readback: usize = erased.downcast_unchecked();

    assert_eq!(readback, 700);
}

#[test]
fn generic_round_trip_law_instances() {
    let s: String = erase_then_downcast::<String, AutoDropUnique>(String::from("round trip"));
    assert_eq!(s, "round trip");

    let n: usize = erase_then_downcast::<usize, AutoDropUnique>(11);
    assert_eq!(n, 11);

    let u: () = erase_then_downcast::<(), AutoDropUnique>(());
    let _ = u;
}

#[test]
fn erased_string_scenario() {
    let original = String::from("a heap-allocated string");

    let handle = AutoDropUnique::new(original.clone()).erase();

    let referenced: &String = (&handle).downcast_unchecked();
    assert_eq!(referenced, &original);

    let recovered: String = handle.downcast_unchecked();
    assert_eq!(recovered, original);
}

#[test]
fn tagged_word_encoding() {
    assert_eq!(StackOrHeap::Stack(0x1000).into_usize(), 0x1000);
    assert_eq!(StackOrHeap::Heap(0x1000).into_usize(), 0x1001);
}

#[test]
fn tagged_word_round_trip() {
    for address in [0usize, 2, 8, 0x7f00, usize::MAX - 1] {
        match StackOrHeap::from_usize(StackOrHeap::Stack(address).into_usize()) {
            StackOrHeap::Stack(decoded) => assert_eq!(decoded, address),
            StackOrHeap::Heap(_) => panic!("stack word decoded as heap"),
        }
        match StackOrHeap::from_usize(StackOrHeap::Heap(address).into_usize()) {
            StackOrHeap::Heap(decoded) => assert_eq!(decoded, address),
            StackOrHeap::Stack(_) => panic!("heap word decoded as stack"),
        }
    }
}

#[test]
fn downcast_mut_readback() {
    let mut erased = AutoDropUnique::new(String::from("before")).erase();

    {
        let reference: &mut String = erased.downcast_mut_unchecked();
        reference.push_str(" and after");
    }

    let readback: String = erased.downcast_unchecked();
    assert_eq!(readback, "before and after");
}

#[test]
fn zero_sized_borrows() {
    let mut erased = AutoDropUnique::<()>::new(()).erase();

    let _reference: &() = (&erased).downcast_unchecked();

    let _mutable: &mut () = erased.downcast_mut_unchecked();
}
