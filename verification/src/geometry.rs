//! Block and part arithmetic of the container format.

use vstd::prelude::*;

verus! {

/// Size in bytes of one payload block, the unit of hashing and addressing.
pub const BLOCK_SIZE: u64 = 0x1000;

/// Number of payload blocks that one full part holds.
pub const BLOCKS_PER_PART: u64 = 0xa1c4;

/// Number of blocks that one full part file occupies on disk, hash tables
/// included.
pub const PART_FILE_BLOCKS: u64 = 0xa290;

/// The least number of units of size `unit` that cover `amount`.
pub open spec fn ceil_div(amount: int, unit: int) -> int
    recommends
        amount >= 0,
        unit > 0,
{
    if amount % unit == 0 {
        amount / unit
    } else {
        amount / unit + 1
    }
}

/// Number of blocks of a payload of `payload_size` bytes.
pub open spec fn spec_block_count(payload_size: int) -> int {
    ceil_div(payload_size, BLOCK_SIZE as int)
}

/// Number of parts of a payload of `payload_size` bytes.
pub open spec fn spec_part_count(payload_size: int) -> int {
    ceil_div(spec_block_count(payload_size), BLOCKS_PER_PART as int)
}

/// Whether `count` units of size `unit` reach `amount`.
pub open spec fn covers(count: int, unit: int, amount: int) -> bool {
    count >= 0 && count * unit >= amount
}

/// `ceil_div` is the least count whose total reaches `amount`.
pub proof fn lemma_ceil_div_is_least_cover(amount: int, unit: int)
    requires
        amount >= 0,
        unit > 0,
    ensures
        covers(ceil_div(amount, unit), unit, amount),
        forall|q: int| #[trigger] covers(q, unit, amount) ==> q >= ceil_div(amount, unit),
{
    let c = ceil_div(amount, unit);
    assert(amount == unit * (amount / unit) + amount % unit) by (nonlinear_arith)
        requires
            unit > 0,
    ;
    assert(c * unit >= amount && ((c - 1) * unit < amount || amount == 0)) by (nonlinear_arith)
        requires
            amount == unit * (amount / unit) + amount % unit,
            0 <= amount % unit < unit,
            c == if amount % unit == 0 {
                amount / unit
            } else {
                amount / unit + 1
            },
    ;
    assert forall|q: int| #[trigger] covers(q, unit, amount) implies q >= c by {
        if q < c {
            assert(q * unit <= (c - 1) * unit) by (nonlinear_arith)
                requires
                    q <= c - 1,
                    unit > 0,
            ;
        }
    }
}

/// Whatever the sizes of a block and of a part, a payload of one byte more
/// than a full part has one block more than a part holds, and two parts.
pub proof fn lemma_one_byte_past_a_full_part(block_size: int, blocks_per_part: int)
    requires
        block_size >= 1,
        blocks_per_part >= 1,
    ensures
        ceil_div(block_size * blocks_per_part + 1, block_size) == blocks_per_part + 1,
        ceil_div(blocks_per_part + 1, blocks_per_part) == 2,
{
    let payload = block_size * blocks_per_part + 1;
    let blocks = ceil_div(payload, block_size);
    assert(payload >= 0 && covers(blocks_per_part + 1, block_size, payload)) by (nonlinear_arith)
        requires
            block_size >= 1,
            blocks_per_part >= 1,
            payload == block_size * blocks_per_part + 1,
    ;
    lemma_ceil_div_is_least_cover(payload, block_size);
    assert(blocks > blocks_per_part) by (nonlinear_arith)
        requires
            blocks * block_size >= block_size * blocks_per_part + 1,
            block_size >= 1,
    ;
    let parts = ceil_div(blocks_per_part + 1, blocks_per_part);
    assert(covers(2, blocks_per_part, blocks_per_part + 1));
    lemma_ceil_div_is_least_cover(blocks_per_part + 1, blocks_per_part);
    assert(parts > 1) by (nonlinear_arith)
        requires
            parts * blocks_per_part >= blocks_per_part + 1,
            blocks_per_part >= 1,
    ;
}

/// Counts the units of size `unit` needed to cover `amount`.
pub fn div_ceil(amount: u64, unit: u64) -> (count: u64)
    requires
        unit > 0,
    ensures
        count == ceil_div(amount as int, unit as int),
{
    let whole: u64 = amount / unit;
    if amount % unit == 0 {
        whole
    } else {
        assert(whole < u64::MAX) by (nonlinear_arith)
            requires
                whole == amount as int / unit as int,
                amount as int % unit as int != 0,
                unit > 0,
                amount <= u64::MAX,
        ;
        whole + 1
    }
}

/// Block and part counts of one payload.
#[derive(Clone, Copy, Debug, PartialEq, Eq, Structural)]
pub struct Geometry {
    pub payload_size: u64,
    pub block_count: u64,
    pub part_count: u64,
}

/// How much of the image counts as payload.
#[derive(Clone, Copy, Debug, PartialEq, Eq, Structural)]
pub enum TrimMode {
    /// Everything from the root offset to the end of the image file.
    FromEnd,
    /// Only the prefix that the file system refers to.
    UsedData,
}

/// Why an image has no payload that could be converted.
#[derive(Clone, Copy, Debug, PartialEq, Eq, Structural)]
pub enum ImageError {
    /// The volume descriptor's signature is missing.
    InvalidVolumeDescriptor,
    /// The image file ends before the root offset.
    RootBeyondEnd,
    /// The payload has no bytes.
    EmptyPayload,
    /// The payload has more blocks or bytes than the header can count.
    PayloadTooLarge,
}

/// The source bytes and blocks that go into one part.
#[derive(Clone, Copy, Debug, PartialEq, Eq, Structural)]
pub struct PartWindow {
    /// Where in the image file the part's data starts.
    pub offset: u64,
    /// Number of bytes to read from there.
    pub byte_len: u64,
    /// Number of blocks that these bytes fill, the last one maybe in part.
    pub block_count: u64,
}

/// The payload size that a trim mode selects, for an image file of
/// `file_len` bytes whose file system starts at `root_offset` and refers to
/// a prefix of `used_prefix_size` bytes.
pub open spec fn spec_payload_size(
    mode: TrimMode,
    file_len: u64,
    root_offset: u64,
    used_prefix_size: u64,
) -> Result<u64, ImageError> {
    match mode {
        TrimMode::FromEnd => if root_offset <= file_len {
            Ok((file_len - root_offset) as u64)
        } else {
            Err(ImageError::RootBeyondEnd)
        },
        TrimMode::UsedData => Ok(used_prefix_size),
    }
}

/// The payload size that a trim mode selects.
pub fn payload_size(mode: TrimMode, file_len: u64, root_offset: u64, used_prefix_size: u64) -> (r:
    Result<u64, ImageError>)
    ensures
        r == spec_payload_size(mode, file_len, root_offset, used_prefix_size),
{
    match mode {
        TrimMode::FromEnd => if root_offset <= file_len {
            Ok(file_len - root_offset)
        } else {
            Err(ImageError::RootBeyondEnd)
        },
        TrimMode::UsedData => Ok(used_prefix_size),
    }
}

/// The geometry of the payload that a trim mode selects, or the reason why
/// that payload cannot be converted: it is empty, it ends beyond what a file
/// offset can address, or it has more blocks than the header can count.
pub open spec fn spec_admit_payload(
    mode: TrimMode,
    file_len: u64,
    root_offset: u64,
    used_prefix_size: u64,
) -> Result<Geometry, ImageError> {
    match spec_payload_size(mode, file_len, root_offset, used_prefix_size) {
        Err(e) => Err(e),
        Ok(size) => if size == 0 {
            Err(ImageError::EmptyPayload)
        } else if root_offset + size > u64::MAX || spec_block_count(size as int) > u32::MAX {
            Err(ImageError::PayloadTooLarge)
        } else {
            Ok(
                Geometry {
                    payload_size: size,
                    block_count: spec_block_count(size as int) as u64,
                    part_count: spec_part_count(size as int) as u64,
                },
            )
        },
    }
}

/// Selects the payload by the trim mode and computes its geometry.
pub fn admit_payload(mode: TrimMode, file_len: u64, root_offset: u64, used_prefix_size: u64) -> (r:
    Result<Geometry, ImageError>)
    ensures
        r == spec_admit_payload(mode, file_len, root_offset, used_prefix_size),
        r matches Ok(g) ==> g.wf() && g.part_count >= 1 && root_offset + g.payload_size <= u64::MAX
            && g.block_count <= u32::MAX,
{
    match payload_size(mode, file_len, root_offset, used_prefix_size) {
        Err(e) => Err(e),
        Ok(size) => {
            if size == 0 {
                return Err(ImageError::EmptyPayload);
            }
            if size > u64::MAX - root_offset {
                return Err(ImageError::PayloadTooLarge);
            }
            let g = Geometry::for_payload(size);
            if g.block_count > 0xffff_ffff {
                return Err(ImageError::PayloadTooLarge);
            }
            Ok(g)
        },
    }
}

/// Where the file system refers to everything up to the end of the image,
/// both trim modes select the same payload, and so the same geometry.
pub proof fn lemma_trim_modes_agree_on_full_use(file_len: u64, root_offset: u64, used: u64)
    requires
        root_offset <= file_len,
        used == file_len - root_offset,
    ensures
        spec_payload_size(TrimMode::FromEnd, file_len, root_offset, used) == Ok::<u64, ImageError>(
            (file_len - root_offset) as u64,
        ),
        spec_payload_size(TrimMode::UsedData, file_len, root_offset, used) == Ok::<u64, ImageError>(
            used,
        ),
        spec_payload_size(TrimMode::FromEnd, file_len, root_offset, used) == spec_payload_size(
            TrimMode::UsedData,
            file_len,
            root_offset,
            used,
        ),
        spec_admit_payload(TrimMode::FromEnd, file_len, root_offset, used) == spec_admit_payload(
            TrimMode::UsedData,
            file_len,
            root_offset,
            used,
        ),
{
}

/// Size in bytes of all part files together, given the size of the last one:
/// every part before it fills a whole part file.
pub open spec fn spec_parts_total_size(part_count: int, last_part_size: int) -> int {
    last_part_size + (part_count - 1) * BLOCK_SIZE * PART_FILE_BLOCKS
}

/// Size in bytes of all part files together. `None` without parts, or when
/// the size does not fit.
pub fn parts_total_size(part_count: u64, last_part_size: u64) -> (r: Option<u64>)
    ensures
        r == if part_count >= 1 && spec_parts_total_size(
            part_count as int,
            last_part_size as int,
        ) <= u64::MAX {
            Some(spec_parts_total_size(part_count as int, last_part_size as int) as u64)
        } else {
            None
        },
{
    if part_count == 0 {
        return None;
    }
    let full_part: u64 = BLOCK_SIZE * PART_FILE_BLOCKS;
    match (part_count - 1).checked_mul(full_part) {
        None => None,
        Some(before) => before.checked_add(last_part_size),
    }
}

/// Number of payload blocks in part `index`.
pub open spec fn spec_part_blocks(block_count: int, index: int) -> int {
    if block_count - index * BLOCKS_PER_PART < BLOCKS_PER_PART {
        block_count - index * BLOCKS_PER_PART
    } else {
        BLOCKS_PER_PART as int
    }
}

/// Number of payload bytes in part `index`.
pub open spec fn spec_part_bytes(payload_size: int, index: int) -> int {
    if payload_size - index * BLOCKS_PER_PART * BLOCK_SIZE < BLOCKS_PER_PART * BLOCK_SIZE {
        payload_size - index * BLOCKS_PER_PART * BLOCK_SIZE
    } else {
        BLOCKS_PER_PART * BLOCK_SIZE
    }
}

/// Offset in the image file of the first byte of part `index`.
pub open spec fn spec_part_offset(root_offset: int, index: int) -> int {
    root_offset + index * BLOCKS_PER_PART * BLOCK_SIZE
}

/// The parts tile the payload: each part but the last holds a full part's
/// blocks and ends where the next begins; the last holds at least one block
/// and ends with the payload; and each part's blocks are those that its
/// bytes fill.
pub proof fn lemma_parts_tile_payload(payload_size: int, index: int)
    requires
        0 <= payload_size,
        0 <= index < spec_part_count(payload_size),
    ensures
        index < spec_part_count(payload_size) - 1 ==> {
            &&& spec_part_blocks(spec_block_count(payload_size), index) == BLOCKS_PER_PART
            &&& spec_part_bytes(payload_size, index) == BLOCKS_PER_PART * BLOCK_SIZE
            &&& spec_part_offset(0, index) + spec_part_bytes(payload_size, index)
                == spec_part_offset(0, index + 1)
        },
        index == spec_part_count(payload_size) - 1 ==> {
            &&& 1 <= spec_part_blocks(spec_block_count(payload_size), index) <= BLOCKS_PER_PART
            &&& index * BLOCKS_PER_PART + spec_part_blocks(spec_block_count(payload_size), index)
                == spec_block_count(payload_size)
            &&& spec_part_offset(0, index) + spec_part_bytes(payload_size, index) == payload_size
        },
        1 <= spec_part_bytes(payload_size, index),
        spec_part_blocks(spec_block_count(payload_size), index) == ceil_div(
            spec_part_bytes(payload_size, index),
            BLOCK_SIZE as int,
        ),
{
}

impl Geometry {
    /// The counts agree with the payload size.
    pub open spec fn wf(&self) -> bool {
        &&& self.block_count == spec_block_count(self.payload_size as int)
        &&& self.part_count == spec_part_count(self.payload_size as int)
    }

    /// Computes the geometry of a payload of `payload_size` bytes.
    pub fn for_payload(payload_size: u64) -> (g: Geometry)
        ensures
            g.wf(),
            g.payload_size == payload_size,
    {
        let block_count: u64 = div_ceil(payload_size, BLOCK_SIZE);
        let part_count: u64 = div_ceil(block_count, BLOCKS_PER_PART);
        Geometry { payload_size, block_count, part_count }
    }

    /// The source bytes that go into part `index`, for a payload that starts
    /// at `root_offset` in the image file.
    pub fn part_window(&self, root_offset: u64, index: u64) -> (w: PartWindow)
        requires
            self.wf(),
            index < self.part_count,
            root_offset + self.payload_size <= u64::MAX,
        ensures
            w.offset == spec_part_offset(root_offset as int, index as int),
            w.byte_len == spec_part_bytes(self.payload_size as int, index as int),
            w.block_count == spec_part_blocks(self.block_count as int, index as int),
    {
        proof {
            lemma_parts_tile_payload(self.payload_size as int, index as int);
        }
        let full_blocks: u64 = BLOCKS_PER_PART;
        let full_bytes: u64 = BLOCKS_PER_PART * BLOCK_SIZE;
        let first_block: u64 = index * full_blocks;
        let first_byte: u64 = index * full_bytes;
        let blocks_left: u64 = self.block_count - first_block;
        let bytes_left: u64 = self.payload_size - first_byte;
        PartWindow {
            offset: root_offset + first_byte,
            byte_len: if bytes_left < full_bytes {
                bytes_left
            } else {
                full_bytes
            },
            block_count: if blocks_left < full_blocks {
                blocks_left
            } else {
                full_blocks
            },
        }
    }
}

} // verus!
