use ruwak::{Abi, ConstPtr, Function, MutPtr, Parameter};

fn round_trip<P: Parameter + Copy + PartialEq + std::fmt::Debug>(x: P) {
    let abi = x.into_abi().expect("integers always cross");
    assert_eq!(P::from_abi(abi), x);
}

#[test]
fn u8_crosses_as_a_32_bit_word() {
    assert_eq!(250u8.into_abi(), Ok(250u32));
    assert_eq!(<u8 as Parameter>::from_abi(250u32), 250u8);
    assert_eq!(<u8 as Parameter>::from_abi(250u8.into_abi().unwrap()), 250u8);
}

#[test]
fn narrow_integers_are_widened_on_the_wire() {
    assert_eq!(u16::MAX.into_abi(), Ok(65535u32));
    assert_eq!((-1i8).into_abi(), Ok(-1i32));
    assert_eq!(i8::MIN.into_abi(), Ok(-128i32));
    assert_eq!(i16::MIN.into_abi(), Ok(-32768i32));
}

#[test]
fn integers_round_trip_at_their_bounds() {
    for x in [0u8, 1, 127, 128, u8::MAX] {
        round_trip(x);
    }
    for x in [0u16, 255, 256, u16::MAX] {
        round_trip(x);
    }
    for x in [0u32, 42, u32::MAX] {
        round_trip(x);
    }
    for x in [0u64, 42, u64::MAX] {
        round_trip(x);
    }
    for x in [0i8, -1, i8::MIN, i8::MAX] {
        round_trip(x);
    }
    for x in [0i16, -1, i16::MIN, i16::MAX] {
        round_trip(x);
    }
    for x in [0i32, -1, i32::MIN, i32::MAX] {
        round_trip(x);
    }
    for x in [0i64, -1, i64::MIN, i64::MAX] {
        round_trip(x);
    }
}

#[test]
fn wide_integers_cross_unchanged() {
    assert_eq!(u64::MAX.into_abi(), Ok(u64::MAX));
    assert_eq!(i64::MIN.into_abi(), Ok(i64::MIN));
    assert_eq!(42u32.into_abi(), Ok(42u32));
}

#[test]
fn host_side_narrows_the_wire_word() {
    assert_eq!(<u32 as Abi<u8>>::into_host(250), 250u8);
    assert_eq!(<u32 as Abi<u8>>::from_host(250u8), 250u32);
    assert_eq!(<i32 as Abi<i16>>::into_host(-300), -300i16);
    assert_eq!(<i32 as Abi<i8>>::from_host(-5i8), -5i32);
    assert_eq!(<u64 as Abi<u64>>::into_host(7), 7u64);
}

#[test]
fn pointers_cross_as_32_bit_addresses() {
    let p = ConstPtr::<u8>::new(42);
    assert_eq!(p.into_abi(), Ok(42u32));
    assert_eq!(<ConstPtr<i64> as Parameter>::from_abi(0xdead_beef).addr(), 0xdead_beef);
    let q = MutPtr::<i16>::new(u32::MAX as usize);
    assert_eq!(q.into_abi(), Ok(u32::MAX));
    assert_eq!(<MutPtr<u32> as Parameter>::from_abi(7).addr(), 7);
}

#[test]
fn pointer_round_trip_keeps_the_address() {
    for addr in [0usize, 1, 4096, u32::MAX as usize] {
        let back = <ConstPtr<u16> as Parameter>::from_abi(ConstPtr::<u16>::new(addr).into_abi().unwrap());
        assert_eq!(back.addr(), addr);
        let back = <MutPtr<i32> as Parameter>::from_abi(MutPtr::<i32>::new(addr).into_abi().unwrap());
        assert_eq!(back.addr(), addr);
    }
}

#[test]
fn pointer_addresses_are_cut_to_32_bits() {
    let p = ConstPtr::<u8>::new((1usize << 32) + 5);
    assert_eq!(p.into_abi(), Ok(5u32));
}

#[test]
fn host_side_pointer_conversions() {
    let p: ConstPtr<u8> = <u32 as Abi<ConstPtr<u8>>>::into_host(99);
    assert_eq!(p.addr(), 99);
    assert_eq!(<u32 as Abi<MutPtr<u64>>>::from_host(MutPtr::new(1234)), 1234u32);
}

fn is_function<F: Function>() -> bool {
    true
}

#[test]
fn parameter_lists_of_up_to_eight_are_functions() {
    assert!(is_function::<(u8,)>());
    assert!(is_function::<(u32, &str, &[u8])>());
    assert!(is_function::<(u8, u16, u32, u64, i8, i16, ConstPtr<i32>, MutPtr<u8>)>());
}
