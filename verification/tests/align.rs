use dynrsaur::align::{supported_alignment, MAX_SUPPORTED_ALIGNMENT};

#[test]
fn supported_alignments_are_powers_of_two() {
    assert!(supported_alignment(1));
    assert!(supported_alignment(2));
    assert!(supported_alignment(4));
    assert!(supported_alignment(8));
    assert!(supported_alignment(4096));
    assert!(supported_alignment(MAX_SUPPORTED_ALIGNMENT));
}

#[test]
fn unsupported_alignments_are_rejected() {
    assert!(!supported_alignment(0));
    assert!(!supported_alignment(3));
    assert!(!supported_alignment(6));
    assert!(!supported_alignment(24));
    assert!(!supported_alignment(MAX_SUPPORTED_ALIGNMENT + 1));
    assert!(!supported_alignment(MAX_SUPPORTED_ALIGNMENT * 2));
}
