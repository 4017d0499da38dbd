use syncrim::text::{bin_u32, dec_signed_u32, dec_u64, hex_u32, push_decimal, push_fixed_digits, push_padded};

#[test]
fn hex_matches_std_format() {
    for v in [0u32, 1, 0xa, 0xdead_beef, 0xffff_ffff, 0x0012_3400] {
        assert_eq!(hex_u32(v), format!("{:#010x}", v));
    }
    assert_eq!(hex_u32(0xdead_beef), "0xdeadbeef");
    assert_eq!(hex_u32(0), "0x00000000");
}

#[test]
fn bin_matches_std_format() {
    for v in [0u32, 5, 0x8000_0001, 0xffff_ffff] {
        assert_eq!(bin_u32(v), format!("{:#034b}", v));
    }
    assert_eq!(bin_u32(5), "0b00000000000000000000000000000101");
}

#[test]
fn decimal_matches_std_format() {
    for v in [0u64, 9, 10, 1234, u32::MAX as u64, u64::MAX] {
        assert_eq!(dec_u64(v), format!("{}", v));
    }
    assert_eq!(dec_u64(0), "0");
}

#[test]
fn signed_decimal_is_twos_complement() {
    for v in [0u32, 5, 0x7fff_ffff, 0x8000_0000, 0xffff_ffff, 0xffff_fffe] {
        assert_eq!(dec_signed_u32(v), format!("{}", v as i32));
    }
    assert_eq!(dec_signed_u32(0xffff_ffff), "-1");
    assert_eq!(dec_signed_u32(0x8000_0000), "-2147483648");
}

#[test]
fn fixed_digits_keep_lowest_digits() {
    let mut s = String::from("x");
    push_fixed_digits(&mut s, 0x1234, 16, 2);
    assert_eq!(s, "x34");
    let mut t = String::new();
    push_fixed_digits(&mut t, 7, 10, 3);
    assert_eq!(t, "007");
    let mut u = String::new();
    push_decimal(&mut u, 42);
    assert_eq!(u, "42");
}

#[test]
fn padding_pads_on_the_right_only_when_short() {
    let mut s = String::new();
    push_padded(&mut s, "at", 4);
    assert_eq!(s, "at  ");
    let mut t = String::new();
    push_padded(&mut t, "zero", 4);
    assert_eq!(t, "zero");
    let mut u = String::new();
    push_padded(&mut u, "longer", 3);
    assert_eq!(u, "longer");
    assert_eq!(format!("{:<4}", "at"), "at  ");
}

#[test]
fn hex_reads_back_as_the_value() {
    for v in [0u32, 0x1f, 0xcafe_babe] {
        let s = hex_u32(v);
        assert_eq!(s.len(), 10);
        assert_eq!(u32::from_str_radix(&s[2..], 16).unwrap(), v);
        let b = bin_u32(v);
        assert_eq!(b.len(), 34);
        assert_eq!(u32::from_str_radix(&b[2..], 2).unwrap(), v);
        assert_eq!(dec_u64(v as u64).parse::<u64>().unwrap(), v as u64);
    }
}
