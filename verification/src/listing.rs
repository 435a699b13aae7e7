//! Lists of images to convert and of packages already made, in the order in
//! which they are shown: by name.

use crate::title::opt_view;
use vstd::prelude::*;
use vstd::string::*;

verus! {

/// An image that can be converted.
#[derive(Clone, Debug, PartialEq, Eq)]
pub struct IsoFile {
    pub path: String,
    /// The path below the directory that was searched.
    pub name: String,
    /// Size of the file in bytes.
    pub size: u64,
}

/// A package that was made earlier.
#[derive(Clone, Debug, PartialEq, Eq)]
pub struct ConvertedGame {
    pub path: String,
    pub name: String,
}

/// Something that is listed under a name.
pub trait Named {
    /// The name, as its characters.
    spec fn spec_name(&self) -> Seq<char>;

    /// The name.
    fn name(&self) -> (name: &str)
        ensures
            name@ == self.spec_name(),
    ;
}

impl Named for IsoFile {
    open spec fn spec_name(&self) -> Seq<char> {
        self.name@
    }

    fn name(&self) -> (name: &str) {
        self.name.as_str()
    }
}

impl Named for ConvertedGame {
    open spec fn spec_name(&self) -> Seq<char> {
        self.name@
    }

    fn name(&self) -> (name: &str) {
        self.name.as_str()
    }
}

/// The name under which a package's directory is listed: its own name
/// after a fixed label, or a stand-in where it has none that can be shown.
pub open spec fn spec_game_label(dir_name: Option<Seq<char>>) -> Seq<char> {
    "Title ID: "@ + (match dir_name {
        Some(name) => name,
        None => "Unknown"@,
    })
}

impl ConvertedGame {
    /// The entry for the package in the directory at `path`, whose last
    /// name is `dir_name`.
    pub fn for_dir(path: String, dir_name: Option<String>) -> (game: ConvertedGame)
        ensures
            game.path@ == path@,
            game.name@ == spec_game_label(opt_view(dir_name)),
    {
        let mut name = String::from_str("Title ID: ");
        match dir_name {
            Some(d) => name.append(d.as_str()),
            None => name.append("Unknown"),
        }
        ConvertedGame { path, name }
    }
}

/// Whether a file name's extension marks an image: `iso`, in any mix of
/// upper and lower case.
pub open spec fn spec_is_iso_extension(extension: Seq<char>) -> bool {
    &&& extension.len() == 3
    &&& (extension[0] == 'i' || extension[0] == 'I')
    &&& (extension[1] == 's' || extension[1] == 'S')
    &&& (extension[2] == 'o' || extension[2] == 'O')
}

/// Whether a file name's extension marks an image.
pub fn is_iso_extension(extension: &str) -> (yes: bool)
    ensures
        yes == spec_is_iso_extension(extension@),
{
    if extension.unicode_len() != 3 {
        return false;
    }
    let i: char = extension.get_char(0);
    let s: char = extension.get_char(1);
    let o: char = extension.get_char(2);
    (i == 'i' || i == 'I') && (s == 's' || s == 'S') && (o == 'o' || o == 'O')
}

/// `a` comes before `b` or is `b`, in the order of a dictionary that goes
/// by the characters' numbers.
pub open spec fn text_le(a: Seq<char>, b: Seq<char>) -> bool
    decreases a.len(),
{
    if a.len() == 0 {
        true
    } else if b.len() == 0 {
        false
    } else if a[0] != b[0] {
        (a[0] as int) < (b[0] as int)
    } else {
        text_le(a.drop_first(), b.drop_first())
    }
}

/// Of two texts, one comes before the other or they are the same.
pub proof fn lemma_text_le_total(a: Seq<char>, b: Seq<char>)
    ensures
        text_le(a, b) || text_le(b, a),
    decreases a.len(),
{
    if a.len() > 0 && b.len() > 0 && a[0] == b[0] {
        lemma_text_le_total(a.drop_first(), b.drop_first());
    }
}

/// What comes before something that comes before a third comes before the
/// third.
pub proof fn lemma_text_le_transitive(a: Seq<char>, b: Seq<char>, c: Seq<char>)
    requires
        text_le(a, b),
        text_le(b, c),
    ensures
        text_le(a, c),
    decreases a.len(),
{
    if a.len() > 0 && b.len() > 0 && c.len() > 0 && a[0] == b[0] && b[0] == c[0] {
        lemma_text_le_transitive(a.drop_first(), b.drop_first(), c.drop_first());
    }
}

/// Whether `a` comes before `b` or is `b`.
pub fn compare_text(a: &str, b: &str) -> (le: bool)
    ensures
        le == text_le(a@, b@),
{
    let n: usize = a.unicode_len();
    let m: usize = b.unicode_len();
    let mut i: usize = 0;
    assert(a@.skip(0) =~= a@ && b@.skip(0) =~= b@);
    while i < n && i < m
        invariant
            i <= n,
            i <= m,
            n == a@.len(),
            m == b@.len(),
            text_le(a@, b@) == text_le(a@.skip(i as int), b@.skip(i as int)),
        decreases n - i,
    {
        let x: char = a.get_char(i);
        let y: char = b.get_char(i);
        proof {
            assert(a@.skip(i as int)[0] == x);
            assert(b@.skip(i as int)[0] == y);
            assert(a@.skip(i as int).drop_first() =~= a@.skip(i + 1));
            assert(b@.skip(i as int).drop_first() =~= b@.skip(i + 1));
        }
        if x != y {
            return (x as u32) < (y as u32);
        }
        i = i + 1;
    }
    i == n
}

/// The names of the items of a list.
pub open spec fn item_names<T: Named>(items: Seq<T>) -> Seq<Seq<char>> {
    Seq::new(items.len(), |i: int| items[i].spec_name())
}

/// Each name comes before the next or is the same.
pub open spec fn in_order(names: Seq<Seq<char>>) -> bool {
    forall|i: int, j: int| 0 <= i < j < names.len() ==> text_le(names[i], names[j])
}

/// `item` put into `sorted` before the first item whose name does not come
/// before its own.
pub open spec fn spec_insert<T: Named>(item: T, sorted: Seq<T>) -> Seq<T>
    decreases sorted.len(),
{
    if sorted.len() == 0 || text_le(item.spec_name(), sorted[0].spec_name()) {
        seq![item] + sorted
    } else {
        seq![sorted[0]] + spec_insert(item, sorted.drop_first())
    }
}

/// The items in the order of their names. Items of the same name keep the
/// order in which they came.
pub open spec fn spec_sort_by_name<T: Named>(items: Seq<T>) -> Seq<T>
    decreases items.len(),
{
    if items.len() == 0 {
        items
    } else {
        spec_insert(items[0], spec_sort_by_name(items.drop_first()))
    }
}

proof fn lemma_insert_at<T: Named>(item: T, sorted: Seq<T>, at: int)
    requires
        0 <= at <= sorted.len(),
        forall|k: int| 0 <= k < at ==> !text_le(item.spec_name(), (#[trigger] sorted[k]).spec_name()),
        at == sorted.len() || text_le(item.spec_name(), sorted[at].spec_name()),
    ensures
        spec_insert(item, sorted) == sorted.insert(at, item),
    decreases at,
{
    if at == 0 {
        assert(seq![item] + sorted =~= sorted.insert(0, item));
    } else {
        let rest = sorted.drop_first();
        assert forall|k: int| 0 <= k < at - 1 implies !text_le(
            item.spec_name(),
            (#[trigger] rest[k]).spec_name(),
        ) by {
            assert(rest[k] == sorted[k + 1]);
        }
        lemma_insert_at(item, rest, at - 1);
        assert(seq![sorted[0]] + rest.insert(at - 1, item) =~= sorted.insert(at, item));
    }
}

proof fn lemma_insert_keeps_order<T: Named>(item: T, sorted: Seq<T>)
    requires
        in_order(item_names(sorted)),
    ensures
        in_order(item_names(spec_insert(item, sorted))),
        spec_insert(item, sorted).len() == sorted.len() + 1,
        spec_insert(item, sorted).to_multiset() == sorted.to_multiset().insert(item),
        forall|k: int|
            0 <= k < spec_insert(item, sorted).len() ==> #[trigger] spec_insert(item, sorted)[k]
                == item || sorted.contains(spec_insert(item, sorted)[k]),
    decreases sorted.len(),
{
    broadcast use vstd::seq_lib::group_to_multiset_ensures;

    let out = spec_insert(item, sorted);
    if sorted.len() == 0 || text_le(item.spec_name(), sorted[0].spec_name()) {
        assert(out =~= sorted.insert(0, item));
        vstd::seq_lib::to_multiset_insert(sorted, 0, item);
        assert forall|i: int, j: int| 0 <= i < j < out.len() implies text_le(
            item_names(out)[i],
            item_names(out)[j],
        ) by {
            if i == 0 {
                assert(out[j] == sorted[j - 1]);
                if j > 1 {
                    assert(text_le(item_names(sorted)[0], item_names(sorted)[j - 1]));
                    lemma_text_le_transitive(
                        item.spec_name(),
                        sorted[0].spec_name(),
                        sorted[j - 1].spec_name(),
                    );
                }
            } else {
                assert(text_le(item_names(sorted)[i - 1], item_names(sorted)[j - 1]));
            }
        }
        assert forall|k: int| 0 <= k < out.len() implies #[trigger] out[k] == item
            || sorted.contains(out[k]) by {
            if k > 0 {
                assert(out[k] == sorted[k - 1]);
            }
        }
    } else {
        let rest = sorted.drop_first();
        assert forall|i: int, j: int| 0 <= i < j < rest.len() implies text_le(
            item_names(rest)[i],
            item_names(rest)[j],
        ) by {
            assert(text_le(item_names(sorted)[i + 1], item_names(sorted)[j + 1]));
        }
        lemma_insert_keeps_order(item, rest);
        let tail = spec_insert(item, rest);
        assert(out =~= seq![sorted[0]] + tail);
        assert(out =~= tail.insert(0, sorted[0]));
        vstd::seq_lib::to_multiset_insert(tail, 0, sorted[0]);
        assert(sorted =~= rest.insert(0, sorted[0]));
        vstd::seq_lib::to_multiset_insert(rest, 0, sorted[0]);
        assert(out.to_multiset() =~= sorted.to_multiset().insert(item));
        lemma_text_le_total(item.spec_name(), sorted[0].spec_name());
        assert forall|k: int| 0 <= k < out.len() implies #[trigger] out[k] == item
            || sorted.contains(out[k]) by {
            if k > 0 {
                assert(out[k] == tail[k - 1]);
                if tail[k - 1] != item {
                    assert(rest.contains(tail[k - 1]));
                    let w = choose|w: int| 0 <= w < rest.len() && rest[w] == tail[k - 1];
                    assert(sorted[w + 1] == tail[k - 1]);
                }
            } else {
                assert(out[0] == sorted[0]);
            }
        }
        assert forall|i: int, j: int| 0 <= i < j < out.len() implies text_le(
            item_names(out)[i],
            item_names(out)[j],
        ) by {
            if i == 0 {
                assert(out[j] == tail[j - 1]);
                if tail[j - 1] == item {
                } else {
                    assert(rest.contains(tail[j - 1]));
                    let w = choose|w: int| 0 <= w < rest.len() && rest[w] == tail[j - 1];
                    assert(text_le(item_names(sorted)[0], item_names(sorted)[w + 1]));
                }
            } else {
                assert(text_le(item_names(tail)[i - 1], item_names(tail)[j - 1]));
            }
        }
    }
}

/// Sorting by name puts the names in order and neither adds nor loses an
/// item.
pub proof fn lemma_sort_orders_and_keeps_items<T: Named>(items: Seq<T>)
    ensures
        in_order(item_names(spec_sort_by_name(items))),
        spec_sort_by_name(items).len() == items.len(),
        spec_sort_by_name(items).to_multiset() == items.to_multiset(),
    decreases items.len(),
{
    broadcast use vstd::seq_lib::group_to_multiset_ensures;

    if items.len() == 0 {
    } else {
        let rest = items.drop_first();
        lemma_sort_orders_and_keeps_items(rest);
        lemma_insert_keeps_order(items[0], spec_sort_by_name(rest));
        assert(items =~= rest.insert(0, items[0]));
        vstd::seq_lib::to_multiset_insert(rest, 0, items[0]);
    }
}

/// Puts the items in the order of their names. Items of the same name keep
/// the order in which they came.
pub fn sort_by_name<T: Named>(items: Vec<T>) -> (sorted: Vec<T>)
    ensures
        sorted@ == spec_sort_by_name(items@),
{
    let ghost all = items@;
    let mut rest = items;
    let mut sorted: Vec<T> = Vec::new();
    assert(all.skip(all.len() as int) =~= Seq::<T>::empty());
    while rest.len() > 0
        invariant
            rest@.len() <= all.len(),
            rest@ == all.take(rest@.len() as int),
            sorted@ == spec_sort_by_name(all.skip(rest@.len() as int)),
        decreases rest@.len(),
    {
        let ghost n = rest@.len() as int;
        let item = rest.pop().unwrap();
        let mut at: usize = 0;
        while at < sorted.len() && !compare_text(item.name(), sorted[at].name())
            invariant
                at <= sorted@.len(),
                forall|k: int|
                    0 <= k < at ==> !text_le(item.spec_name(), (#[trigger] sorted@[k]).spec_name()),
            decreases sorted@.len() - at,
        {
            at = at + 1;
        }
        proof {
            lemma_insert_at(item, sorted@, at as int);
            assert(item == all[n - 1]);
            assert(all.skip(n - 1)[0] == item);
            assert(all.skip(n - 1).drop_first() =~= all.skip(n));
            assert(rest@ =~= all.take(n - 1));
        }
        sorted.insert(at, item);
    }
    assert(all.skip(0) =~= all);
    sorted
}

} // verus!
