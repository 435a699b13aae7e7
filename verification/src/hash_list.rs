//! The per-part hash table: a block of 4096 bytes that holds up to 204
//! digests of 20 bytes each, one after another, followed by zero bytes.

use crate::digest::{sha1_digest, sha1_of, DIGEST_SIZE};
use vstd::prelude::*;

verus! {

/// Size in bytes of a hash table on disk.
pub const HASH_BLOCK_SIZE: usize = 4096;

/// Number of digests that fit into one hash table.
pub const MAX_ENTRIES: usize = 204;

/// Why the bytes of a hash table were not accepted, or a table not extended.
#[derive(Clone, Copy, Debug, PartialEq, Eq, Structural)]
pub enum FormatError {
    /// Fewer bytes than one hash table takes.
    Undersized,
    /// Non-zero bytes follow the first empty slot.
    Corrupt,
    /// The table already holds as many digests as fit.
    Full,
}

/// Every entry is one digest, and all of them fit into one table.
pub open spec fn well_formed(entries: Seq<Seq<u8>>) -> bool {
    &&& entries.len() <= MAX_ENTRIES
    &&& forall|i: int| 0 <= i < entries.len() ==> (#[trigger] entries[i]).len() == DIGEST_SIZE
}

/// The bytes of the table that holds `entries`: the entries in order, then zeros.
pub open spec fn block_of(entries: Seq<Seq<u8>>) -> Seq<u8> {
    Seq::new(
        HASH_BLOCK_SIZE as nat,
        |j: int|
            if j < entries.len() * 20 {
                entries[j / 20][j % 20]
            } else {
                0u8
            },
    )
}

/// The digest of the table that holds `entries`, taken over the whole block.
pub open spec fn digest_of(entries: Seq<Seq<u8>>) -> Seq<u8> {
    sha1_digest(block_of(entries))
}

/// The bytes of slot `i` of a table.
pub open spec fn slot(block: Seq<u8>, i: int) -> Seq<u8> {
    block.subrange(i * 20, i * 20 + 20)
}

/// All bytes are zero.
pub open spec fn is_zero(bytes: Seq<u8>) -> bool {
    forall|j: int| 0 <= j < bytes.len() ==> bytes[j] == 0
}

/// The first `count` slots of a table.
pub open spec fn entries_of(block: Seq<u8>, count: nat) -> Seq<Seq<u8>> {
    Seq::new(count, |i: int| slot(block, i))
}

/// `block` is a table of exactly `count` entries: `count` slots that are not
/// empty, and nothing but zero bytes behind them.
pub open spec fn holds_entries(block: Seq<u8>, count: nat) -> bool {
    &&& block.len() == HASH_BLOCK_SIZE
    &&& count <= MAX_ENTRIES
    &&& forall|i: int| 0 <= i < count ==> !is_zero(#[trigger] slot(block, i))
    &&& forall|j: int| count * 20 <= j < HASH_BLOCK_SIZE ==> #[trigger] block[j] == 0
}

/// A block holds at most one number of entries.
pub proof fn lemma_entry_count_unique(block: Seq<u8>, a: nat, b: nat)
    requires
        holds_entries(block, a),
        holds_entries(block, b),
    ensures
        a == b,
{
    if a < b {
        assert(!is_zero(slot(block, a as int)));
        assert forall|j: int| 0 <= j < slot(block, a as int).len() implies slot(block, a as int)[j]
            == 0 by {
            assert(slot(block, a as int)[j] == block[a * 20 + j]);
        }
    } else if b < a {
        assert(!is_zero(slot(block, b as int)));
        assert forall|j: int| 0 <= j < slot(block, b as int).len() implies slot(block, b as int)[j]
            == 0 by {
            assert(slot(block, b as int)[j] == block[b * 20 + j]);
        }
    }
}

/// What the bytes of a part file's start are read as: the table in the
/// first 4096 bytes, if there are as many and they are a table.
pub open spec fn spec_from_block(bytes: Seq<u8>) -> Result<Seq<Seq<u8>>, FormatError> {
    if bytes.len() < HASH_BLOCK_SIZE {
        Err(FormatError::Undersized)
    } else {
        let head = bytes.subrange(0, HASH_BLOCK_SIZE as int);
        if exists|n: nat| holds_entries(head, n) {
            Ok(entries_of(head, choose|n: nat| holds_entries(head, n)))
        } else {
            Err(FormatError::Corrupt)
        }
    }
}

/// Writing a table and reading it again gives the same entries, as long as
/// none of them is the all-zero digest, which marks an empty slot.
pub proof fn lemma_block_round_trip(entries: Seq<Seq<u8>>)
    requires
        well_formed(entries),
        forall|i: int| 0 <= i < entries.len() ==> !is_zero(#[trigger] entries[i]),
    ensures
        holds_entries(block_of(entries), entries.len()),
        entries_of(block_of(entries), entries.len()) == entries,
        spec_from_block(block_of(entries)) == Ok::<Seq<Seq<u8>>, FormatError>(entries),
{
    lemma_block_holds_its_entries(entries);
    let block = block_of(entries);
    assert(block.subrange(0, HASH_BLOCK_SIZE as int) =~= block);
    let n = choose|n: nat| holds_entries(block, n);
    lemma_entry_count_unique(block, n, entries.len());
}

proof fn lemma_block_holds_its_entries(entries: Seq<Seq<u8>>)
    requires
        well_formed(entries),
        forall|i: int| 0 <= i < entries.len() ==> !is_zero(#[trigger] entries[i]),
    ensures
        holds_entries(block_of(entries), entries.len()),
        entries_of(block_of(entries), entries.len()) == entries,
{
    let block = block_of(entries);
    assert forall|i: int| 0 <= i < entries.len() implies #[trigger] slot(block, i) == entries[i] by {
        assert(entries[i].len() == DIGEST_SIZE);
        assert(slot(block, i) =~= entries[i]) by {
            assert forall|j: int| 0 <= j < 20 implies slot(block, i)[j] == entries[i][j] by {
                assert(slot(block, i)[j] == block[i * 20 + j]);
                assert((i * 20 + j) / 20 == i);
                assert((i * 20 + j) % 20 == j);
            }
        }
    }
    assert(entries_of(block, entries.len()) =~= entries);
}

/// One part's hash table.
pub struct HashList {
    block: Vec<u8>,
    count: usize,
}

impl View for HashList {
    type V = Seq<Seq<u8>>;

    /// The digests that the table holds, in order.
    closed spec fn view(&self) -> Seq<Seq<u8>> {
        entries_of(self.block@, self.count as nat)
    }
}

fn slot_is_zero(block: &Vec<u8>, i: usize) -> (zero: bool)
    requires
        block@.len() == HASH_BLOCK_SIZE,
        i < MAX_ENTRIES,
    ensures
        zero == is_zero(slot(block@, i as int)),
{
    let base: usize = i * 20;
    let mut j: usize = 0;
    while j < 20
        invariant
            j <= 20,
            base == i * 20,
            i < MAX_ENTRIES,
            block@.len() == HASH_BLOCK_SIZE,
            forall|k: int| base <= k < base + j ==> #[trigger] block@[k] == 0,
        decreases 20 - j,
    {
        if block[base + j] != 0 {
            assert(slot(block@, i as int)[j as int] == block@[base + j]);
            return false;
        }
        j = j + 1;
    }
    assert forall|k: int| 0 <= k < slot(block@, i as int).len() implies slot(block@, i as int)[k]
        == 0 by {
        assert(slot(block@, i as int)[k] == block@[base + k]);
    }
    true
}

impl HashList {
    #[verifier::type_invariant]
    spec fn inv(&self) -> bool {
        &&& self.block@.len() == HASH_BLOCK_SIZE
        &&& self.count <= MAX_ENTRIES
        &&& forall|j: int| self.count * 20 <= j < HASH_BLOCK_SIZE ==> #[trigger] self.block@[j] == 0
    }

    /// A table without entries.
    pub fn new() -> (h: HashList)
        ensures
            h@ == Seq::<Seq<u8>>::empty(),
    {
        let mut block: Vec<u8> = Vec::new();
        let mut j: usize = 0;
        while j < HASH_BLOCK_SIZE
            invariant
                j <= HASH_BLOCK_SIZE,
                block@.len() == j,
                forall|k: int| 0 <= k < j ==> #[trigger] block@[k] == 0,
            decreases HASH_BLOCK_SIZE - j,
        {
            block.push(0u8);
            j = j + 1;
        }
        let h = HashList { block, count: 0 };
        assert(h@ =~= Seq::<Seq<u8>>::empty());
        h
    }

    /// Reads a table from the first 4096 bytes of `bytes`. The entries are the
    /// slots before the first empty one. Fails when there are too few bytes,
    /// or when the rest of the block is not zero.
    pub fn from_block(bytes: &[u8]) -> (r: Result<HashList, FormatError>)
        ensures
            match r {
                Ok(h) => {
                    &&& spec_from_block(bytes@) == Ok::<Seq<Seq<u8>>, FormatError>(h@)
                    &&& holds_entries(bytes@.subrange(0, HASH_BLOCK_SIZE as int), h@.len())
                    &&& h@ == entries_of(bytes@.subrange(0, HASH_BLOCK_SIZE as int), h@.len())
                    &&& block_of(h@) == bytes@.subrange(0, HASH_BLOCK_SIZE as int)
                },
                Err(e) => spec_from_block(bytes@) == Err::<Seq<Seq<u8>>, FormatError>(e),
            },
    {
        if bytes.len() < HASH_BLOCK_SIZE {
            return Err(FormatError::Undersized);
        }
        let ghost head = bytes@.subrange(0, HASH_BLOCK_SIZE as int);
        let mut block: Vec<u8> = Vec::new();
        let mut j: usize = 0;
        while j < HASH_BLOCK_SIZE
            invariant
                j <= HASH_BLOCK_SIZE,
                bytes@.len() >= HASH_BLOCK_SIZE,
                block@.len() == j,
                forall|k: int| 0 <= k < j ==> #[trigger] block@[k] == bytes@[k],
            decreases HASH_BLOCK_SIZE - j,
        {
            block.push(bytes[j]);
            j = j + 1;
        }
        assert(block@ =~= head);
        let mut count: usize = 0;
        while count < MAX_ENTRIES && !slot_is_zero(&block, count)
            invariant
                count <= MAX_ENTRIES,
                block@.len() == HASH_BLOCK_SIZE,
                forall|i: int| 0 <= i < count ==> !is_zero(#[trigger] slot(block@, i)),
            decreases MAX_ENTRIES - count,
        {
            count = count + 1;
        }
        let mut t: usize = count * 20;
        while t < HASH_BLOCK_SIZE
            invariant
                count * 20 <= t <= HASH_BLOCK_SIZE,
                count <= MAX_ENTRIES,
                block@.len() == HASH_BLOCK_SIZE,
                block@ == head,
                bytes@.len() >= HASH_BLOCK_SIZE,
                head == bytes@.subrange(0, HASH_BLOCK_SIZE as int),
                forall|i: int| 0 <= i < count ==> !is_zero(#[trigger] slot(block@, i)),
                count < MAX_ENTRIES ==> is_zero(slot(block@, count as int)),
                forall|k: int| count * 20 <= k < t ==> #[trigger] block@[k] == 0,
            decreases HASH_BLOCK_SIZE - t,
        {
            if block[t] != 0 {
                assert forall|n: nat| !holds_entries(head, n) by {
                    if holds_entries(head, n) {
                        if n <= count {
                            assert(head[t as int] == 0);
                        } else {
                            assert(!is_zero(slot(head, count as int)));
                        }
                    }
                }
                return Err(FormatError::Corrupt);
            }
            t = t + 1;
        }
        let h = HashList { block, count };
        assert(h@.len() == count);
        proof {
            assert(holds_entries(head, count as nat));
            let n = choose|n: nat| holds_entries(head, n);
            lemma_entry_count_unique(head, n, count as nat);
            h.lemma_block();
        }
        Ok(h)
    }

    /// Number of digests in the table. They fit into one block, and each
    /// has the size of a digest.
    pub fn len(&self) -> (n: usize)
        ensures
            n == self@.len(),
            n <= MAX_ENTRIES,
            well_formed(self@),
    {
        proof {
            use_type_invariant(self);
        }
        self.count
    }

    /// Whether the table holds as many digests as fit.
    pub fn is_full(&self) -> (full: bool)
        ensures
            full == (self@.len() == MAX_ENTRIES),
            self@.len() <= MAX_ENTRIES,
    {
        proof {
            use_type_invariant(self);
        }
        self.count == MAX_ENTRIES
    }

    /// The digest in slot `i`.
    pub fn entry(&self, i: usize) -> (digest: [u8; 20])
        requires
            i < self@.len(),
        ensures
            digest@ == self@[i as int],
    {
        proof {
            use_type_invariant(self);
        }
        let base: usize = i * 20;
        let mut digest: [u8; 20] = [0u8; 20];
        let mut j: usize = 0;
        while j < 20
            invariant
                j <= 20,
                base == i * 20,
                i < self.count,
                self.count <= MAX_ENTRIES,
                self.block@.len() == HASH_BLOCK_SIZE,
                forall|k: int| 0 <= k < j ==> #[trigger] digest@[k] == self.block@[base + k],
            decreases 20 - j,
        {
            digest[j] = self.block[base + j];
            j = j + 1;
        }
        assert(digest@ =~= self@[i as int]);
        digest
    }

    /// Puts `digest` into the first empty slot. A full table is left as it
    /// is, and the call fails.
    pub fn add_hash(&mut self, digest: &[u8; 20]) -> (r: Result<(), FormatError>)
        ensures
            old(self)@.len() < MAX_ENTRIES ==> r is Ok && final(self)@ == old(self)@.push(digest@),
            old(self)@.len() >= MAX_ENTRIES ==> r == Err::<(), FormatError>(FormatError::Full)
                && final(self)@ == old(self)@,
    {
        proof {
            use_type_invariant(&*self);
        }
        if self.count >= MAX_ENTRIES {
            return Err(FormatError::Full);
        }
        let count: usize = self.count;
        let base: usize = count * 20;
        let mut block: Vec<u8> = Vec::new();
        let mut j: usize = 0;
        while j < HASH_BLOCK_SIZE
            invariant
                j <= HASH_BLOCK_SIZE,
                base == count * 20,
                count < MAX_ENTRIES,
                self.block@.len() == HASH_BLOCK_SIZE,
                block@.len() == j,
                forall|k: int|
                    0 <= k < j ==> #[trigger] block@[k] == if base <= k < base + 20 {
                        digest@[k - base]
                    } else {
                        self.block@[k]
                    },
            decreases HASH_BLOCK_SIZE - j,
        {
            if base <= j && j < base + 20 {
                block.push(digest[j - base]);
            } else {
                block.push(self.block[j]);
            }
            j = j + 1;
        }
        let ghost before = self@;
        let ghost old_block = self.block@;
        assert(entries_of(block@, (count + 1) as nat) =~= before.push(digest@)) by {
            assert forall|i: int| 0 <= i < count + 1 implies entries_of(
                block@,
                (count + 1) as nat,
            )[i] == before.push(digest@)[i] by {
                if i < count {
                    assert(slot(block@, i) =~= slot(old_block, i));
                } else {
                    assert(slot(block@, i) =~= digest@);
                }
            }
        }
        *self = HashList { block, count: count + 1 };
        Ok(())
    }

    /// The table as it stands on disk.
    pub fn to_block(&self) -> (bytes: Vec<u8>)
        ensures
            bytes@ == block_of(self@),
    {
        proof {
            use_type_invariant(self);
            self.lemma_block();
        }
        let mut bytes: Vec<u8> = Vec::new();
        let mut j: usize = 0;
        while j < HASH_BLOCK_SIZE
            invariant
                j <= HASH_BLOCK_SIZE,
                self.block@.len() == HASH_BLOCK_SIZE,
                bytes@.len() == j,
                forall|k: int| 0 <= k < j ==> #[trigger] bytes@[k] == self.block@[k],
            decreases HASH_BLOCK_SIZE - j,
        {
            bytes.push(self.block[j]);
            j = j + 1;
        }
        assert(bytes@ =~= self.block@);
        bytes
    }

    /// The digest of the table, taken over the whole block.
    pub fn digest(&self) -> (digest: [u8; 20])
        ensures
            digest@ == digest_of(self@),
    {
        proof {
            use_type_invariant(self);
            self.lemma_block();
        }
        sha1_of(self.block.as_slice())
    }

    proof fn lemma_block(&self)
        requires
            self.inv(),
        ensures
            self.block@ == block_of(self@),
    {
        assert(self.block@ =~= block_of(self@)) by {
            assert forall|j: int| 0 <= j < HASH_BLOCK_SIZE implies self.block@[j] == block_of(
                self@,
            )[j] by {
                if j < self.count * 20 {
                    assert(self@[j / 20] == slot(self.block@, j / 20));
                    assert(slot(self.block@, j / 20)[j % 20] == self.block@[j / 20 * 20 + j % 20]);
                }
            }
        }
    }
}

} // verus!
