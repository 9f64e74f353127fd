use signwriter::prefix::get_prefix;

#[test]
fn prefix_end_increments_last_byte() {
    assert_eq!(get_prefix(vec![0x61, 0x62]), vec![0x61, 0x63]);
}

#[test]
fn prefix_end_of_single_ff_is_unbounded() {
    assert_eq!(get_prefix(vec![0xFF]), Vec::<u8>::new());
}

#[test]
fn prefix_end_drops_trailing_ff() {
    assert_eq!(get_prefix(vec![0x61, 0xFF]), vec![0x62]);
}

#[test]
fn prefix_end_of_empty_is_unbounded() {
    assert_eq!(get_prefix(Vec::new()), Vec::<u8>::new());
}

#[test]
fn prefix_end_of_all_ff_is_unbounded() {
    assert_eq!(get_prefix(vec![0xFF, 0xFF, 0xFF]), Vec::<u8>::new());
}

#[test]
fn prefix_end_single_byte_extremes() {
    assert_eq!(get_prefix(vec![0x00]), vec![0x01]);
    assert_eq!(get_prefix(vec![0xFE]), vec![0xFF]);
    assert_eq!(get_prefix(vec![0xFF]), Vec::<u8>::new());
}

#[test]
fn prefix_end_ff_inside_then_plain_bytes() {
    assert_eq!(get_prefix(vec![0xFF, 0x10, 0x20]), vec![0xFF, 0x10, 0x21]);
    assert_eq!(get_prefix(vec![0x10, 0xFF, 0xFF]), vec![0x11]);
}

#[test]
fn prefix_end_of_config_root() {
    assert_eq!(get_prefix(b"traefik".to_vec()), b"traefil".to_vec());
}

#[test]
fn prefix_range_holds_exactly_the_prefixed_keys() {
    let p = vec![0x61u8, 0xFF];
    let e = get_prefix(p.clone());
    let inside: Vec<Vec<u8>> = vec![vec![0x61, 0xFF], vec![0x61, 0xFF, 0x00], vec![0x61, 0xFF, 0xFF, 0xFF]];
    for k in inside {
        assert!(p <= k && k < e, "{:?} should lie in the range", k);
    }
    let outside: Vec<Vec<u8>> = vec![vec![0x61], vec![0x61, 0xFE, 0xFF], vec![0x62], vec![0x62, 0x00], vec![0x60, 0xFF]];
    for k in outside {
        assert!(!(p <= k && k < e), "{:?} should lie outside the range", k);
    }
}
