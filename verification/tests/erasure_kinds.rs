use dynrsaur::erasure::defer_downcast_unchecked_to_try_downcast::defer_downcast_unchecked_to_try_downcast;
use dynrsaur::erasure::erased_box::ErasedBox;
use dynrsaur::erasure::erasure::Erasure;
use dynrsaur::erasure::inline_erasure::InlineErasure;
use dynrsaur::erasure::is::Is;
use dynrsaur::erasure::tagged_erasure::TaggedErasure;
use dynrsaur::erasure::value::{tag_align, tag_size, Tag, Value};
use std::mem::{align_of, size_of};

#[test]
fn is() {
    const STRING: &str = "this is a string";

    let erased_string = Value::Text(String::from(STRING));

    let is = Is::<&String, _>::new(&erased_string).expect("erased_string erases a String");

    assert_eq!(is.downcast(), STRING);
}

#[test]
fn is_reports_mismatch() {
    let erased = Value::Byte(7);

    let mismatch: Result<Is<usize, Value>, Value> = Is::new(erased);

    let handed_back = match mismatch {
        Ok(_) => panic!("a byte must not check as a word"),
        Err(e) => e,
    };

    // The erasure comes back unchanged: its payload is still the byte.
    let byte: u8 = handed_back.try_downcast().expect("the byte is still there");
    assert_eq!(byte, 7);
}

#[test]
fn is_round_trips_the_erasure() {
    let ctx = Is::<u8, Value>::new(Value::Byte(5)).expect("a byte checks as a byte");

    let erasure = ctx.into_inner();

    let byte: u8 = erasure.downcast_unchecked();
    assert_eq!(byte, 5);
}

#[test]
fn value_tagged_queries() {
    let word = Value::Word(123);

    assert!(TaggedErasure::<usize>::is(&word));
    assert!(!TaggedErasure::<u8>::is(&word));
    assert!(!TaggedErasure::<String>::is(&word));
    assert_eq!(word.tag(), Tag::Word);
}

#[test]
fn value_try_downcast_mismatch_keeps_payload() {
    let text = Value::Text(String::from("still here"));

    let mismatch: Result<u16, Value> = text.try_downcast();

    let unchanged = match mismatch {
        Ok(_) => panic!("text must not downcast to a half-word"),
        Err(e) => e,
    };

    let s: String = unchanged.try_downcast().expect("the text is still there");
    assert_eq!(s, "still here");
}

#[test]
fn value_downcast_chain() {
    // A type-dispatch chain: try candidate types in sequence.
    let erased = Value::Half(900);

    let erased = match TaggedErasure::<u8>::try_downcast(erased) {
        Ok(_) => panic!("a half-word is not a byte"),
        Err(e) => e,
    };
    let half: u16 = erased.try_downcast().expect("the second candidate matches");
    assert_eq!(half, 900);
}

#[test]
fn defer_downcast_recovers() {
    let byte: u8 = defer_downcast_unchecked_to_try_downcast(Value::Byte(42));
    assert_eq!(byte, 42);
}

#[test]
fn inline_round_trip() {
    let erasure = InlineErasure::<8, 8>::new::<usize>(123);

    let readback: usize = erasure.downcast_unchecked();

    assert_eq!(readback, 123);
}

#[test]
fn inline_round_trip_text() {
    let erasure = InlineErasure::<24, 8>::new(String::from("inline header"));

    let reference: &String = (&erasure).downcast_unchecked();
    assert_eq!(reference, "inline header");

    let readback: String = erasure.downcast_unchecked();
    assert_eq!(readback, "inline header");
}

#[test]
fn inline_size_bound_rejects_large_payload() {
    // A one-byte slot cannot take an eight-byte payload.
    assert!(!InlineErasure::<1, 1>::check_size_and_align_of::<usize>());
    // It does take a byte.
    assert!(InlineErasure::<1, 1>::check_size_and_align_of::<u8>());
}

#[test]
fn inline_align_bound_rejects_overaligned_payload() {
    // The size fits, but the alignment demanded by the payload exceeds the
    // buffer's.
    assert!(!InlineErasure::<8, 1>::check_size_and_align_of::<usize>());
    assert!(InlineErasure::<8, 8>::check_size_and_align_of::<usize>());
}

#[test]
fn inline_zero_sized() {
    assert!(InlineErasure::<0, 1>::check_size_and_align_of::<()>());

    let erasure = InlineErasure::<0, 1>::new(());
    let _unit: () = erasure.downcast_unchecked();
}

#[test]
fn erased_box_round_trip() {
    let boxed: ErasedBox = ErasedBox::new(String::from("boxed"));

    let readback: String = boxed.downcast_unchecked();

    assert_eq!(readback, "boxed");
}

#[test]
fn erased_box_ref_readback() {
    let boxed: ErasedBox = ErasedBox::new(77usize);

    let reference: &usize = (&boxed).downcast_unchecked();

    assert_eq!(*reference, 77);
}

#[test]
fn erased_box_over_inline_erasure() {
    let boxed: ErasedBox<InlineErasure<8, 8>> = ErasedBox::new(31usize);

    let readback: usize = boxed.downcast_unchecked();

    assert_eq!(readback, 31);
}

#[test]
fn value_downcast_mut() {
    let mut erased = Value::Word(1);

    {
        let reference: &mut usize = erased.downcast_mut_unchecked();
        *reference = 2;
    }

    let word: usize = erased.downcast_unchecked();
    assert_eq!(word, 2);
}

#[test]
fn inline_downcast_mut() {
    let mut erasure = InlineErasure::<2, 2>::new(7u16);

    {
        let reference: &mut u16 = erasure.downcast_mut_unchecked();
        *reference += 1;
    }

    let half: u16 = erasure.downcast_unchecked();
    assert_eq!(half, 8);
}

#[test]
fn inline_text_needs_full_header() {
    // A text payload occupies a three-word header: twenty-four bytes.
    assert!(InlineErasure::<24, 8>::check_size_and_align_of::<String>());
    assert!(!InlineErasure::<23, 8>::check_size_and_align_of::<String>());
}

#[test]
fn layout_model_matches_machine() {
    assert_eq!(tag_size(Tag::Unit), size_of::<()>());
    assert_eq!(tag_size(Tag::Byte), size_of::<u8>());
    assert_eq!(tag_size(Tag::Half), size_of::<u16>());
    assert_eq!(tag_size(Tag::Word), size_of::<usize>());
    assert_eq!(tag_size(Tag::Text), size_of::<String>());

    assert_eq!(tag_align(Tag::Unit), align_of::<()>());
    assert_eq!(tag_align(Tag::Byte), align_of::<u8>());
    assert_eq!(tag_align(Tag::Half), align_of::<u16>());
    assert_eq!(tag_align(Tag::Word), align_of::<usize>());
    assert_eq!(tag_align(Tag::Text), align_of::<String>());
}
