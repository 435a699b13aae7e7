use god_converter::geometry::{
    admit_payload, div_ceil, parts_total_size, payload_size, Geometry, ImageError, TrimMode,
    BLOCKS_PER_PART, BLOCK_SIZE, PART_FILE_BLOCKS,
};

#[test]
fn format_constants() {
    assert_eq!(BLOCK_SIZE, 4096);
    assert_eq!(BLOCKS_PER_PART, 41412);
    assert_eq!(PART_FILE_BLOCKS, 41616);
}

#[test]
fn div_ceil_rounds_up() {
    assert_eq!(div_ceil(0, 4096), 0);
    assert_eq!(div_ceil(1, 4096), 1);
    assert_eq!(div_ceil(4096, 4096), 1);
    assert_eq!(div_ceil(4097, 4096), 2);
    assert_eq!(div_ceil(u64::MAX, 1), u64::MAX);
    assert_eq!(div_ceil(u64::MAX, 2), 1 << 63);
}

#[test]
fn one_byte_past_a_full_part_needs_a_second_part() {
    let g = Geometry::for_payload(BLOCK_SIZE * BLOCKS_PER_PART + 1);
    assert_eq!(g.block_count, BLOCKS_PER_PART + 1);
    assert_eq!(g.part_count, 2);
}

#[test]
fn exactly_one_full_part() {
    let g = Geometry::for_payload(BLOCK_SIZE * BLOCKS_PER_PART);
    assert_eq!(g.block_count, BLOCKS_PER_PART);
    assert_eq!(g.part_count, 1);
}

#[test]
fn empty_payload_has_no_blocks() {
    let g = Geometry::for_payload(0);
    assert_eq!(g.block_count, 0);
    assert_eq!(g.part_count, 0);
}

#[test]
fn part_windows_tile_the_payload() {
    let size = 2 * BLOCK_SIZE * BLOCKS_PER_PART + 5000;
    let g = Geometry::for_payload(size);
    assert_eq!(g.part_count, 3);
    let root = 0xfd90000u64;
    let w0 = g.part_window(root, 0);
    let w1 = g.part_window(root, 1);
    let w2 = g.part_window(root, 2);
    assert_eq!(w0.offset, root);
    assert_eq!(w0.byte_len, BLOCK_SIZE * BLOCKS_PER_PART);
    assert_eq!(w0.block_count, BLOCKS_PER_PART);
    assert_eq!(w1.offset, root + BLOCK_SIZE * BLOCKS_PER_PART);
    assert_eq!(w1.block_count, BLOCKS_PER_PART);
    assert_eq!(w2.offset, root + 2 * BLOCK_SIZE * BLOCKS_PER_PART);
    assert_eq!(w2.byte_len, 5000);
    assert_eq!(w2.block_count, 2);
    assert_eq!(w0.block_count + w1.block_count + w2.block_count, g.block_count);
    assert_eq!(w2.offset + w2.byte_len, root + size);
}

#[test]
fn trim_modes_select_different_sizes() {
    let f = 7_000_000_000u64;
    let r = 0xfd90000u64;
    let u = 1_000_000u64;
    assert_eq!(payload_size(TrimMode::FromEnd, f, r, u), Ok(f - r));
    assert_eq!(payload_size(TrimMode::UsedData, f, r, u), Ok(u));
}

#[test]
fn trim_modes_agree_when_everything_is_used() {
    let f = 7_000_000_000u64;
    let r = 0xfd90000u64;
    let u = f - r;
    assert_eq!(
        admit_payload(TrimMode::FromEnd, f, r, u),
        admit_payload(TrimMode::UsedData, f, r, u)
    );
}

#[test]
fn root_offset_beyond_the_file_is_rejected() {
    assert_eq!(payload_size(TrimMode::FromEnd, 10, 11, 0), Err(ImageError::RootBeyondEnd));
    assert_eq!(admit_payload(TrimMode::FromEnd, 10, 11, 0), Err(ImageError::RootBeyondEnd));
}

#[test]
fn empty_payload_is_rejected() {
    assert_eq!(admit_payload(TrimMode::FromEnd, 10, 10, 0), Err(ImageError::EmptyPayload));
    assert_eq!(admit_payload(TrimMode::UsedData, 10, 0, 0), Err(ImageError::EmptyPayload));
}

#[test]
fn oversized_payload_is_rejected() {
    assert_eq!(
        admit_payload(TrimMode::UsedData, 0, 1, u64::MAX),
        Err(ImageError::PayloadTooLarge)
    );
    assert_eq!(
        admit_payload(TrimMode::UsedData, 0, 0, (1u64 << 32) * BLOCK_SIZE + 1),
        Err(ImageError::PayloadTooLarge)
    );
    let largest = admit_payload(TrimMode::UsedData, 0, 0, ((1u64 << 32) - 1) * BLOCK_SIZE);
    assert_eq!(largest.map(|g| g.block_count), Ok((1u64 << 32) - 1));
}

#[test]
fn total_size_counts_full_part_files_before_the_last() {
    assert_eq!(parts_total_size(1, 8192), Some(8192));
    assert_eq!(parts_total_size(3, 8192), Some(8192 + 2 * 4096 * 0xa290));
    assert_eq!(parts_total_size(0, 8192), None);
    assert_eq!(parts_total_size(u64::MAX, 0), None);
    assert_eq!(parts_total_size(2, u64::MAX), None);
}
