use god_converter::hash_list::{FormatError, HashList, HASH_BLOCK_SIZE, MAX_ENTRIES};

const A: [u8; 20] = [1, 2, 3, 4, 5, 6, 7, 8, 9, 10, 11, 12, 13, 14, 15, 16, 17, 18, 19, 20];
const B: [u8; 20] = [
    101, 102, 103, 104, 105, 106, 107, 108, 109, 110, 111, 112, 113, 114, 115, 116, 117, 118, 119,
    120,
];

fn block_with(entries: &[[u8; 20]]) -> Vec<u8> {
    let mut block = vec![0u8; HASH_BLOCK_SIZE];
    for (i, e) in entries.iter().enumerate() {
        block[i * 20..i * 20 + 20].copy_from_slice(e);
    }
    block
}

#[test]
fn new_table_is_empty_and_all_zero() {
    let h = HashList::new();
    assert_eq!(h.len(), 0);
    assert!(!h.is_full());
    assert_eq!(h.to_block(), vec![0u8; 4096]);
}

#[test]
fn digest_of_empty_table_is_sha1_of_a_zero_block() {
    let h = HashList::new();
    assert_eq!(
        h.digest(),
        [28, 234, 247, 61, 244, 14, 83, 29, 243, 191, 178, 107, 79, 183, 205, 149, 251, 123, 255, 29]
    );
}

#[test]
fn digest_covers_the_whole_block() {
    let mut h = HashList::new();
    assert_eq!(h.add_hash(&A), Ok(()));
    assert_eq!(
        h.digest(),
        [61, 3, 123, 209, 50, 83, 255, 57, 222, 31, 164, 233, 14, 104, 66, 205, 245, 89, 39, 48]
    );
    assert_eq!(h.add_hash(&B), Ok(()));
    assert_eq!(
        h.digest(),
        [101, 162, 225, 40, 58, 197, 78, 127, 39, 42, 144, 24, 122, 18, 229, 215, 209, 153, 126, 4]
    );
}

#[test]
fn add_hash_fills_the_next_slot() {
    let mut h = HashList::new();
    h.add_hash(&A).unwrap();
    h.add_hash(&B).unwrap();
    assert_eq!(h.len(), 2);
    assert_eq!(h.entry(0), A);
    assert_eq!(h.entry(1), B);
    assert_eq!(h.to_block(), block_with(&[A, B]));
}

#[test]
fn full_table_refuses_another_digest() {
    let mut h = HashList::new();
    for _ in 0..MAX_ENTRIES {
        assert_eq!(h.add_hash(&A), Ok(()));
    }
    assert!(h.is_full());
    assert_eq!(h.len(), 204);
    let before = h.to_block();
    assert_eq!(h.add_hash(&B), Err(FormatError::Full));
    assert_eq!(h.len(), 204);
    assert_eq!(h.to_block(), before);
}

#[test]
fn from_block_reads_entries_up_to_the_first_empty_slot() {
    let h = HashList::from_block(&block_with(&[A, B])).unwrap();
    assert_eq!(h.len(), 2);
    assert_eq!(h.entry(0), A);
    assert_eq!(h.entry(1), B);
}

#[test]
fn from_block_takes_only_the_first_block() {
    let mut bytes = block_with(&[A]);
    bytes.extend_from_slice(&[0xffu8; 100]);
    let h = HashList::from_block(&bytes).unwrap();
    assert_eq!(h.len(), 1);
    assert_eq!(h.to_block(), block_with(&[A]));
}

#[test]
fn from_block_rejects_short_input() {
    assert_eq!(HashList::from_block(&[]).err(), Some(FormatError::Undersized));
    assert_eq!(HashList::from_block(&vec![1u8; 4095]).err(), Some(FormatError::Undersized));
}

#[test]
fn from_block_rejects_data_behind_an_empty_slot() {
    let mut block = block_with(&[A]);
    block[40] = 1;
    assert_eq!(HashList::from_block(&block).err(), Some(FormatError::Corrupt));
    let mut tail = block_with(&[A]);
    tail[4095] = 1;
    assert_eq!(HashList::from_block(&tail).err(), Some(FormatError::Corrupt));
}

#[test]
fn from_block_accepts_a_full_table() {
    let block = block_with(&vec![A; 204]);
    let h = HashList::from_block(&block).unwrap();
    assert_eq!(h.len(), 204);
    assert!(h.is_full());
}

#[test]
fn block_round_trip() {
    let mut h = HashList::new();
    h.add_hash(&A).unwrap();
    h.add_hash(&B).unwrap();
    let again = HashList::from_block(&h.to_block()).unwrap();
    assert_eq!(again.len(), 2);
    assert_eq!(again.to_block(), h.to_block());
    assert_eq!(again.digest(), h.digest());
}
