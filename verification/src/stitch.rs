//! Chaining of the parts' hash tables into one tree, from the last part up
//! to the first.

use crate::hash_list::{digest_of, FormatError, HashList, MAX_ENTRIES};
use vstd::prelude::*;

verus! {

/// The tables of all parts, each seen as its entries.
pub open spec fn tables(parts: Seq<HashList>) -> Seq<Seq<Seq<u8>>> {
    Seq::new(parts.len(), |k: int| parts[k]@)
}

/// The table of part `k` once the chain is closed. The last part keeps its
/// table; every earlier one gains the digest of its successor's closed table.
pub open spec fn chained(tables: Seq<Seq<Seq<u8>>>, k: int) -> Seq<Seq<u8>>
    decreases tables.len() - k,
{
    if 0 <= k < tables.len() - 1 {
        tables[k].push(digest_of(chained(tables, k + 1)))
    } else if k == tables.len() - 1 {
        tables[k]
    } else {
        Seq::empty()
    }
}

/// The digest that binds all parts: that of the first part's closed table.
pub open spec fn root_digest(tables: Seq<Seq<Seq<u8>>>) -> Seq<u8> {
    digest_of(chained(tables, 0))
}

/// Every part but the last has a free slot for its successor's digest.
pub open spec fn can_chain(tables: Seq<Seq<Seq<u8>>>) -> bool {
    forall|k: int| 0 <= k < tables.len() - 1 ==> (#[trigger] tables[k]).len() < MAX_ENTRIES
}

/// Closing the chain adds exactly one entry to each part but the last, the
/// digest of the next part's closed table, and leaves the last part's table
/// as it was.
pub proof fn lemma_chain_adds_successor_digest(tables: Seq<Seq<Seq<u8>>>, k: int)
    requires
        0 <= k < tables.len(),
    ensures
        k < tables.len() - 1 ==> {
            &&& chained(tables, k).len() == tables[k].len() + 1
            &&& chained(tables, k).drop_last() == tables[k]
            &&& chained(tables, k).last() == digest_of(chained(tables, k + 1))
        },
        k == tables.len() - 1 ==> chained(tables, k) == tables[k],
{
}

/// The root digest is the digest of the first part's closed table. With a
/// single part nothing is chained, and it is the digest of that part's table
/// as written.
pub proof fn lemma_root_is_first_table_digest(tables: Seq<Seq<Seq<u8>>>)
    requires
        tables.len() >= 1,
    ensures
        root_digest(tables) == digest_of(chained(tables, 0)),
        tables.len() == 1 ==> root_digest(tables) == digest_of(tables[0]),
{
}

/// The closed tables of all parts and the digest that binds them.
pub struct Stitched {
    /// The table of each part, to be written back in place of the old one.
    pub parts: Vec<HashList>,
    /// The digest of the first part's table.
    pub root: [u8; 20],
}

/// Closes the chain over the tables of all parts, given in part order. Works
/// from the last part to the first, as each digest covers the one before.
/// Fails when a part other than the last has no free slot.
pub fn stitch(parts: Vec<HashList>) -> (r: Result<Stitched, FormatError>)
    requires
        parts@.len() >= 1,
    ensures
        match r {
            Ok(s) => {
                &&& can_chain(tables(parts@))
                &&& s.parts@.len() == parts@.len()
                &&& forall|k: int|
                    0 <= k < parts@.len() ==> (#[trigger] s.parts@[k])@ == chained(
                        tables(parts@),
                        k,
                    )
                &&& s.root@ == root_digest(tables(parts@))
            },
            Err(e) => e == FormatError::Full && !can_chain(tables(parts@)),
        },
{
    let ghost all = tables(parts@);
    let ghost n = parts@.len() as int;
    let mut rest = parts;
    let mut reversed: Vec<HashList> = Vec::new();
    let last = rest.pop().unwrap();
    let mut carry: [u8; 20] = last.digest();
    reversed.push(last);
    while rest.len() > 0
        invariant
            all == tables(parts@),
            n == all.len(),
            n >= 1,
            rest@.len() + reversed@.len() == n,
            reversed@.len() >= 1,
            forall|k: int| 0 <= k < rest@.len() ==> (#[trigger] rest@[k])@ == all[k],
            forall|i: int|
                0 <= i < reversed@.len() ==> (#[trigger] reversed@[i])@ == chained(all, n - 1 - i),
            carry@ == digest_of(chained(all, rest@.len() as int)),
            forall|k: int| rest@.len() <= k < n - 1 ==> (#[trigger] all[k]).len() < MAX_ENTRIES,
        decreases rest@.len(),
    {
        let mut table = rest.pop().unwrap();
        match table.add_hash(&carry) {
            Err(_) => {
                return Err(FormatError::Full);
            },
            Ok(_) => {},
        }
        carry = table.digest();
        reversed.push(table);
    }
    let mut ordered: Vec<HashList> = Vec::new();
    while reversed.len() > 0
        invariant
            n == all.len(),
            ordered@.len() + reversed@.len() == n,
            forall|i: int|
                0 <= i < reversed@.len() ==> (#[trigger] reversed@[i])@ == chained(all, n - 1 - i),
            forall|k: int| 0 <= k < ordered@.len() ==> (#[trigger] ordered@[k])@ == chained(all, k),
        decreases reversed@.len(),
    {
        let table = reversed.pop().unwrap();
        ordered.push(table);
    }
    Ok(Stitched { parts: ordered, root: carry })
}

} // verus!
