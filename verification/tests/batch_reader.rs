use zenoh_dissector::batch::{create_rbatch, BatchError};

#[test]
fn underrun_is_insufficient_input() {
    let data = [1_u8, 2, 3];
    let mut reader: &[u8] = &data;
    let r = create_rbatch(&mut reader, 4, false);
    assert_eq!(r.err(), Some(BatchError::InsufficientInput));
    // The cursor is left untouched.
    assert_eq!(reader, &data[..]);
}

#[test]
fn underrun_with_compression_is_insufficient_input() {
    let data = [9_u8];
    let mut reader: &[u8] = &data;
    let r = create_rbatch(&mut reader, 2, true);
    assert_eq!(r.err(), Some(BatchError::InsufficientInput));
}

#[test]
fn uncompressed_batch_keeps_all_bytes() {
    let data = [1_u8, 2, 3, 4, 5];
    let mut reader: &[u8] = &data;
    let batch = create_rbatch(&mut reader, 5, false).unwrap();
    assert_eq!(batch.inner.len(), 5);
    assert!(reader.is_empty());
}

#[test]
fn cursor_advances_past_the_batch_only() {
    let data = [1_u8, 2, 3, 4, 5];
    let mut reader: &[u8] = &data;
    let batch = create_rbatch(&mut reader, 3, false).unwrap();
    assert_eq!(batch.inner.len(), 3);
    assert_eq!(reader, &[4_u8, 5][..]);
}

#[test]
fn compressed_header_without_compression_bit_is_stripped() {
    // Header byte 0x00: compression negotiated but this batch is not
    // compressed, so only the header byte is consumed.
    let data = [0x00_u8, 7, 8, 9];
    let mut reader: &[u8] = &data;
    let batch = create_rbatch(&mut reader, 4, true).unwrap();
    assert_eq!(batch.inner.len(), 3);
}

#[test]
fn compressed_payload_is_decompressed() {
    // Header byte 0x01 (compression bit set) followed by a raw block whose
    // token 0x40 announces four literal bytes.
    let data = [0x01_u8, 0x40, 10, 11, 12, 13];
    let mut reader: &[u8] = &data;
    let batch = create_rbatch(&mut reader, 6, true).unwrap();
    assert_eq!(batch.inner.len(), 4);
}

#[test]
fn failed_compressed_initialization_falls_back_to_uncompressed() {
    // The compression bit is set but the payload is not a valid block, so the
    // compressed attempt fails and the same bytes are kept uncompressed.
    let data = [0x01_u8, 0xF0];
    let mut reader: &[u8] = &data;
    let batch = create_rbatch(&mut reader, 2, true).unwrap();
    assert_eq!(batch.inner.len(), 2);
}

#[test]
fn empty_batch_with_compression_negotiated_succeeds() {
    let data: [u8; 0] = [];
    let mut reader: &[u8] = &data;
    let batch = create_rbatch(&mut reader, 0, true).unwrap();
    assert_eq!(batch.inner.len(), 0);
}
