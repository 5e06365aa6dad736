use tokenscope::address::Address;
use tokenscope::address::OptionalAddress;
use tokenscope::error::DecodeError;

#[test]
fn tag_zero_is_absent_whatever_follows() {
    let mut field = vec![0xabu8; 36];
    field[0..4].copy_from_slice(&[0, 0, 0, 0]);
    assert_eq!(OptionalAddress::decode(&field), Ok(OptionalAddress::Absent));
    assert_eq!(OptionalAddress::decode(&[0u8; 36]), Ok(OptionalAddress::Absent));
}

#[test]
fn tag_one_is_the_address_in_the_slot() {
    let mut field = vec![0u8; 36];
    field[0] = 1;
    let mut bytes = [0u8; 32];
    for k in 0..32 {
        field[4 + k] = k as u8 + 1;
        bytes[k] = k as u8 + 1;
    }
    assert_eq!(
        OptionalAddress::decode(&field),
        Ok(OptionalAddress::Present(Address { bytes }))
    );
}

#[test]
fn tag_one_with_a_zero_slot_is_present() {
    let mut field = vec![0u8; 36];
    field[0] = 1;
    assert_eq!(
        OptionalAddress::decode(&field),
        Ok(OptionalAddress::Present(Address { bytes: [0; 32] }))
    );
}

#[test]
fn other_tags_are_malformed() {
    for tag in [[2u8, 0, 0, 0], [0, 1, 0, 0], [1, 0, 0, 1], [255, 255, 255, 255], [0, 0, 0, 128]] {
        let mut field = vec![0u8; 36];
        field[0..4].copy_from_slice(&tag);
        assert_eq!(
            OptionalAddress::decode(&field),
            Err(DecodeError::MalformedField { offset: 0 })
        );
    }
}

#[test]
fn short_field_is_truncated() {
    assert_eq!(
        OptionalAddress::decode(&[1u8; 35]),
        Err(DecodeError::TruncatedBuffer { required: 36, actual: 35 })
    );
    assert_eq!(
        OptionalAddress::decode(&[]),
        Err(DecodeError::TruncatedBuffer { required: 36, actual: 0 })
    );
}

#[test]
fn bytes_after_the_field_are_ignored() {
    let mut field = vec![9u8; 50];
    field[0..4].copy_from_slice(&[1, 0, 0, 0]);
    assert_eq!(
        OptionalAddress::decode(&field),
        Ok(OptionalAddress::Present(Address { bytes: [9; 32] }))
    );
}

#[test]
fn tagged_encoding_is_read_back() {
    let present = OptionalAddress::Present(Address { bytes: [5; 32] });
    let mut out = vec![0xeeu8];
    present.write_tagged(&mut out);
    assert_eq!(out.len(), 37);
    assert_eq!(&out[1..5], &[1, 0, 0, 0]);
    assert_eq!(OptionalAddress::decode(&out[1..]), Ok(present));
    let mut out = Vec::new();
    OptionalAddress::Absent.write_tagged(&mut out);
    assert_eq!(out, vec![0u8; 36]);
    assert_eq!(OptionalAddress::decode(&out), Ok(OptionalAddress::Absent));
}

#[test]
fn addresses_compare_by_their_bytes() {
    let a = Address { bytes: [1; 32] };
    let mut other = [1u8; 32];
    assert!(a == Address { bytes: other });
    other[31] = 2;
    assert!(a != Address { bytes: other });
    assert!(!a.is_zero());
    assert!(Address { bytes: [0; 32] }.is_zero());
    let mut out = vec![3u8];
    a.write(&mut out);
    assert_eq!(out.len(), 33);
    assert_eq!(&out[1..], &[1u8; 32]);
}
