use tokenscope::error::DecodeError;
use tokenscope::extension::stream::enumerate;
use tokenscope::extension::stream::write_record;
use tokenscope::extension::stream::ExtensionCursor;
use tokenscope::extension::stream::RawExtension;

fn record(type_code: u16, payload: &[u8]) -> Vec<u8> {
    let mut out = Vec::new();
    assert!(write_record(type_code, payload, &mut out));
    out
}

#[test]
fn empty_region_has_no_records() {
    let mut cursor = enumerate(&[]);
    assert_eq!(cursor.next_record(), None);
    assert_eq!(enumerate(&[]).collect(), Ok(vec![]));
}

#[test]
fn fewer_than_four_bytes_are_padding() {
    for len in 1..4usize {
        let region = vec![0xffu8; len];
        assert_eq!(enumerate(&region).collect(), Ok(vec![]));
    }
    let mut region = record(2, &[1, 2, 3, 4, 5, 6, 7, 8]);
    region.extend_from_slice(&[0xff, 0xff, 0xff]);
    let found = enumerate(&region).collect().unwrap();
    assert_eq!(found.len(), 1);
    assert_eq!(found[0], RawExtension { type_code: 2, payload: &[1, 2, 3, 4, 5, 6, 7, 8] });
}

#[test]
fn one_record_with_nothing_after_it() {
    let region = [0x03u8, 0x00, 0x08, 0x00, 10, 11, 12, 13, 14, 15, 16, 17];
    let mut cursor = enumerate(&region);
    assert_eq!(
        cursor.next_record(),
        Some(Ok(RawExtension { type_code: 3, payload: &[10, 11, 12, 13, 14, 15, 16, 17] }))
    );
    assert_eq!(cursor.next_record(), None);
    assert_eq!(cursor.next_record(), None);
}

#[test]
fn header_is_little_endian() {
    let mut region = vec![0x34u8, 0x12, 0x02, 0x01];
    region.extend_from_slice(&[7u8; 0x0102]);
    let found = enumerate(&region).collect().unwrap();
    assert_eq!(found.len(), 1);
    assert_eq!(found[0].type_code, 0x1234);
    assert_eq!(found[0].payload.len(), 0x0102);
}

#[test]
fn declared_length_beyond_the_buffer_is_truncated() {
    let mut region = vec![0x07u8, 0x00, 20, 0x00];
    region.extend_from_slice(&[0u8; 10]);
    assert_eq!(
        enumerate(&region).collect(),
        Err(DecodeError::TruncatedExtension { index: 0, type_code: 7 })
    );
    let mut cursor = enumerate(&region);
    assert_eq!(
        cursor.next_record(),
        Some(Err(DecodeError::TruncatedExtension { index: 0, type_code: 7 }))
    );
    assert_eq!(cursor.next_record(), None);
}

#[test]
fn records_before_a_truncated_one_are_yielded_first() {
    let mut region = record(1, &[1, 2]);
    region.extend_from_slice(&record(2, &[]));
    region.extend_from_slice(&[0x09, 0x00, 0x05, 0x00, 1, 2, 3, 4]);
    let mut cursor = ExtensionCursor::new(&region);
    assert_eq!(cursor.next_record(), Some(Ok(RawExtension { type_code: 1, payload: &[1, 2] })));
    assert_eq!(cursor.next_record(), Some(Ok(RawExtension { type_code: 2, payload: &[] })));
    assert_eq!(
        cursor.next_record(),
        Some(Err(DecodeError::TruncatedExtension { index: 2, type_code: 9 }))
    );
    assert_eq!(cursor.next_record(), None);
    assert_eq!(
        enumerate(&region).collect(),
        Err(DecodeError::TruncatedExtension { index: 2, type_code: 9 })
    );
}

#[test]
fn records_come_in_the_order_of_the_buffer() {
    let mut region = Vec::new();
    for k in 0..20u16 {
        let payload = vec![k as u8; (k % 5) as usize];
        assert!(write_record(1000 - k, &payload, &mut region));
    }
    let found = enumerate(&region).collect().unwrap();
    assert_eq!(found.len(), 20);
    for k in 0..20u16 {
        assert_eq!(found[k as usize].type_code, 1000 - k);
        assert_eq!(found[k as usize].payload, &vec![k as u8; (k % 5) as usize][..]);
    }
}

#[test]
fn enumerating_twice_gives_the_same_list() {
    let mut region = record(3, &[1; 8]);
    region.extend_from_slice(&record(0xffff, &[2; 3]));
    region.extend_from_slice(&record(7, &[]));
    let first = enumerate(&region).collect();
    let second = enumerate(&region).collect();
    assert_eq!(first, second);
    assert_eq!(first.unwrap().len(), 3);
}

#[test]
fn records_are_not_aligned() {
    let mut region = record(1, &[9]);
    region.extend_from_slice(&record(2, &[8, 7, 6]));
    assert_eq!(region.len(), 12);
    let found = enumerate(&region).collect().unwrap();
    assert_eq!(found[0].payload, &[9]);
    assert_eq!(found[1].payload, &[8, 7, 6]);
}

#[test]
fn written_record_has_header_then_payload() {
    let mut out = vec![0xaau8];
    assert!(write_record(0x0102, &[5, 6, 7], &mut out));
    assert_eq!(out, vec![0xaa, 0x02, 0x01, 0x03, 0x00, 5, 6, 7]);
}

#[test]
fn payload_too_long_for_its_length_field_is_not_written() {
    let mut out = vec![1u8, 2];
    assert!(!write_record(1, &vec![0u8; 0x1_0000], &mut out));
    assert_eq!(out, vec![1, 2]);
    assert!(write_record(1, &vec![0u8; 0xffff], &mut out));
    assert_eq!(out.len(), 2 + 4 + 0xffff);
}

#[test]
fn pass_can_start_inside_a_buffer() {
    let mut data = vec![0xeeu8; 5];
    data.extend_from_slice(&record(4, &[1]));
    let mut cursor = ExtensionCursor::starting_at(&data, 5);
    assert_eq!(cursor.position(), 5);
    assert_eq!(cursor.next_record(), Some(Ok(RawExtension { type_code: 4, payload: &[1] })));
    assert_eq!(cursor.position(), 10);
    assert_eq!(cursor.next_record(), None);
    let mut beyond = ExtensionCursor::starting_at(&data, 500);
    assert_eq!(beyond.position(), data.len());
    assert_eq!(beyond.next_record(), None);
}
