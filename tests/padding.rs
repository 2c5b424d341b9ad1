use backend_rust::{pkcs7_pad, pkcs7_unpad, BLOCK_SIZE};

#[test]
fn pad_empty_is_one_full_block() {
    assert_eq!(pkcs7_pad(&[]), vec![16u8; 16]);
}

#[test]
fn pad_partial_block() {
    let mut expected = b"hello".to_vec();
    expected.extend_from_slice(&[11u8; 11]);
    assert_eq!(pkcs7_pad(b"hello"), expected);
}

#[test]
fn pad_whole_block_adds_a_block() {
    let data = [7u8; 16];
    let padded = pkcs7_pad(&data);
    assert_eq!(padded.len(), 32);
    assert_eq!(&padded[..16], &data[..]);
    assert_eq!(&padded[16..], &[16u8; 16][..]);
}

#[test]
fn pad_lengths_round_up() {
    for n in 0..50usize {
        let data = vec![0xabu8; n];
        let padded = pkcs7_pad(&data);
        assert_eq!(padded.len() % BLOCK_SIZE, 0);
        assert_eq!(padded.len(), (n / BLOCK_SIZE + 1) * BLOCK_SIZE);
        assert_eq!(pkcs7_unpad(&padded), Some(data));
    }
}

#[test]
fn unpad_rejects_malformed() {
    assert_eq!(pkcs7_unpad(&[]), None);
    assert_eq!(pkcs7_unpad(&[1, 2, 3, 0]), None);
    assert_eq!(pkcs7_unpad(&[17u8; 17]), None);
    assert_eq!(pkcs7_unpad(&[3, 3]), None);
    assert_eq!(pkcs7_unpad(&[9, 2, 3, 3]), None);
}

#[test]
fn unpad_accepts_well_formed() {
    assert_eq!(pkcs7_unpad(&[9, 3, 3, 3]), Some(vec![9]));
    assert_eq!(pkcs7_unpad(&[4, 1]), Some(vec![4]));
    assert_eq!(pkcs7_unpad(&[2, 2]), Some(vec![]));
}
