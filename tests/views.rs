use ruwak::{BoundaryError, GuestMemoryView, GuestStringView, Parameter};

#[test]
fn memory_view_resolves_in_memory_that_holds_it() {
    let p: usize = 16;
    let view = GuestMemoryView::try_from_parts(5, p).unwrap();
    assert_eq!(view.len(), 5);
    assert_eq!(view.ptr(), 16);
    let mut memory = vec![0u8; p + 5];
    memory[p..].copy_from_slice(&[1, 2, 3, 4, 5]);
    assert_eq!(view.as_str(&memory), Ok(&[1u8, 2, 3, 4, 5][..]));
    assert_eq!(view.as_str(&memory[..p + 4]), Err(BoundaryError::OutOfBounds));
}

#[test]
fn memory_view_of_a_slice_records_its_length() {
    let bytes = [1u8, 2, 3, 4, 5];
    match GuestMemoryView::new(&bytes) {
        Ok(view) => assert_eq!(view.len(), 5),
        Err(e) => assert_eq!(e, BoundaryError::PtrOverflow),
    }
}

#[test]
fn string_view_of_a_str_records_its_byte_length() {
    match GuestStringView::new("héllo") {
        Ok(view) => assert_eq!(view.len(), 6),
        Err(e) => assert_eq!(e, BoundaryError::PtrOverflow),
    }
    match "hi".into_abi() {
        Ok(view) => assert_eq!(view.len(), 2),
        Err(e) => assert_eq!(e, BoundaryError::PtrOverflow),
    }
}

#[test]
fn string_view_resolves_to_the_string_bytes() {
    let memory = b"xxxhello, guestyy";
    let view = GuestStringView::try_from_parts(12, 3).unwrap();
    assert_eq!(view.as_slice(memory), Ok(&b"hello, guest"[..]));
    assert_eq!(view.as_slice(&memory[..14]), Err(BoundaryError::OutOfBounds));
}

#[test]
fn empty_view_resolves_to_nothing() {
    let view = GuestMemoryView::try_from_parts(0, 7).unwrap();
    assert_eq!(view.as_str(&[0u8; 7]), Ok(&[][..]));
    assert_eq!(view.as_str(&[0u8; 6]), Err(BoundaryError::OutOfBounds));
    let empty: &[u8] = &[];
    match GuestMemoryView::new(empty) {
        Ok(view) => assert_eq!(view.len(), 0),
        Err(e) => assert_eq!(e, BoundaryError::PtrOverflow),
    }
}

#[test]
fn length_beyond_32_bits_is_refused() {
    let len = u32::MAX as usize + 1;
    assert_eq!(GuestMemoryView::try_from_parts(len, 0), Err(BoundaryError::LenOverflow));
    assert_eq!(GuestStringView::try_from_parts(len, 1usize << 40), Err(BoundaryError::LenOverflow));
}

#[test]
fn address_beyond_32_bits_is_refused() {
    let addr = u32::MAX as usize + 1;
    assert_eq!(GuestMemoryView::try_from_parts(1, addr), Err(BoundaryError::PtrOverflow));
    assert_eq!(GuestStringView::try_from_parts(0, addr), Err(BoundaryError::PtrOverflow));
    let last = GuestMemoryView::try_from_parts(u32::MAX as usize, u32::MAX as usize).unwrap();
    assert_eq!(last.len(), u32::MAX);
    assert_eq!(last.ptr(), u32::MAX);
}

#[test]
fn range_past_the_32_bit_space_is_refused() {
    let view = GuestMemoryView::try_from_parts(2, u32::MAX as usize).unwrap();
    assert_eq!(view.as_str(&[0u8; 4]), Err(BoundaryError::RangeOverflow));
    let view = GuestStringView::try_from_parts(u32::MAX as usize, 1).unwrap();
    assert_eq!(view.as_slice(b"ab"), Err(BoundaryError::RangeOverflow));
}

#[test]
fn views_are_plain_copyable_values() {
    let a = GuestMemoryView::try_from_parts(3, 9).unwrap();
    let b = a;
    assert_eq!(a, b);
    assert_ne!(a, GuestMemoryView::try_from_parts(3, 10).unwrap());
}
