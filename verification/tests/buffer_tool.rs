use flexion::buffer_tool::{snip_ref, snip_ref_mut};

#[test]
fn snip_ref_number() {
    let buffer = [1, 2, 3, 4, 5, 6, 7, 8];
    let (num, remainder) = snip_ref::<u32>(&buffer[..]).unwrap();
    assert_eq!(num, u32::from_le(0x04030201));
    assert_eq!(remainder, b"\x05\x06\x07\x08");
}

#[test]
fn snip_ref_mut_number() {
    let mut buffer = [0u8; 8];
    let remainder = snip_ref_mut::<u32>(&mut buffer[..], &0x04030201u32.to_le()).unwrap();
    remainder[0] = 5;
    assert_eq!(&buffer, &[1, 2, 3, 4, 5, 0, 0, 0]);
}
