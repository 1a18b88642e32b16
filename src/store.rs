use vstd::prelude::*;
use vstd::string::*;
use crate::paths::{join, join_path};

verus! {

/// Name of the store directory inside the home directory.
pub open spec fn store_dir_name() -> Seq<char> {
    seq!['.', 'd', 'f', 'l']
}

/// Name of the version-control metadata directory inside the store.
pub open spec fn metadata_name() -> Seq<char> {
    seq!['.', 'g', 'i', 't']
}

/// Where the store lives for a given home directory.
pub open spec fn store_root_of(home: Seq<char>) -> Seq<char> {
    join_path(home, store_dir_name())
}

/// One child of the store directory, as a directory listing reports it.
pub struct DirItem {
    pub name: String,
    pub is_dir: bool,
}

impl View for DirItem {
    type V = (Seq<char>, bool);

    open spec fn view(&self) -> (Seq<char>, bool) {
        (self.name@, self.is_dir)
    }
}

/// One tracked file: its content lives at `store_path`, and a symbolic link
/// at `origin_path` points back to it.
pub struct ManagedEntry {
    pub name: String,
    pub store_path: String,
    pub origin_path: String,
}

/// What a `ManagedEntry` stands for in specifications.
pub struct EntryView {
    pub name: Seq<char>,
    pub store_path: Seq<char>,
    pub origin_path: Seq<char>,
}

impl View for ManagedEntry {
    type V = EntryView;

    open spec fn view(&self) -> EntryView {
        EntryView { name: self.name@, store_path: self.store_path@, origin_path: self.origin_path@ }
    }
}

/// The entry named `name` of the store at `root`, linked from `home`.
pub open spec fn entry_for(root: Seq<char>, home: Seq<char>, name: Seq<char>) -> EntryView {
    EntryView { name, store_path: join_path(root, name), origin_path: join_path(home, name) }
}

/// A listed child is a tracked file when it is not a directory and not the
/// metadata directory.
pub open spec fn is_managed(item: (Seq<char>, bool)) -> bool {
    !item.1 && item.0 != metadata_name()
}

/// The entries that a listing of the store yields, in listing order.
pub open spec fn managed_entries(root: Seq<char>, home: Seq<char>, items: Seq<(Seq<char>, bool)>) -> Seq<EntryView>
    decreases items.len(),
{
    if items.len() == 0 {
        Seq::empty()
    } else {
        let rest = managed_entries(root, home, items.drop_last());
        if is_managed(items.last()) {
            rest.push(entry_for(root, home, items.last().0))
        } else {
            rest
        }
    }
}

/// The store directory for the home directory `home`.
pub fn store_root(home: &str) -> (r: String)
    ensures
        r@ == store_root_of(home@),
{
    let name = ".dfl";
    proof {
        reveal_strlit(".dfl");
        assert(name@ =~= store_dir_name());
    }
    join(home, name)
}

/// Whether `name` is the name of the metadata directory.
pub fn is_metadata(name: &str) -> (r: bool)
    ensures
        r == (name@ == metadata_name()),
{
    if name.unicode_len() != 4 {
        return false;
    }
    let r = name.get_char(0) == '.' && name.get_char(1) == 'g' && name.get_char(2) == 'i'
        && name.get_char(3) == 't';
    if r {
        assert(name@ =~= metadata_name());
    }
    r
}

/// The tracked files of the store at `root`, given its listing `items`:
/// every child that is neither a directory nor the metadata directory,
/// linked from `home`, in listing order.
pub fn list_entries(root: &str, home: &str, items: &Vec<DirItem>) -> (r: Vec<ManagedEntry>)
    ensures
        r@.map_values(|e: ManagedEntry| e@) == managed_entries(root@, home@, items@.map_values(|i: DirItem| i@)),
{
    let ghost views = items@.map_values(|i: DirItem| i@);
    let mut r: Vec<ManagedEntry> = Vec::new();
    let mut k: usize = 0;
    while k < items.len()
        invariant
            k <= items@.len(),
            views == items@.map_values(|i: DirItem| i@),
            r@.map_values(|e: ManagedEntry| e@) == managed_entries(root@, home@, views.take(k as int)),
        decreases items@.len() - k,
    {
        let item = &items[k];
        assert(views.take(k + 1).drop_last() =~= views.take(k as int));
        if !item.is_dir && !is_metadata(item.name.as_str()) {
            let e = ManagedEntry {
                name: item.name.clone(),
                store_path: join(root, item.name.as_str()),
                origin_path: join(home, item.name.as_str()),
            };
            let ghost before = r@;
            r.push(e);
            assert(r@.map_values(|e: ManagedEntry| e@) =~= before.map_values(|e: ManagedEntry| e@).push(e@));
        }
        k = k + 1;
    }
    assert(views.take(k as int) =~= views);
    r
}

/// A listing whose only children are directories (a freshly initialised
/// store holds just its metadata directory) yields no entries, and no
/// listing ever yields the metadata directory.
pub proof fn lemma_listing_excludes_metadata(root: Seq<char>, home: Seq<char>, items: Seq<(Seq<char>, bool)>)
    ensures
        (forall|i: int| 0 <= i < items.len() ==> (#[trigger] items[i]).1 || items[i].0 == metadata_name())
            ==> managed_entries(root, home, items).len() == 0,
        forall|j: int| 0 <= j < managed_entries(root, home, items).len()
            ==> (#[trigger] managed_entries(root, home, items)[j]).name != metadata_name(),
    decreases items.len(),
{
    if items.len() > 0 {
        let rest = items.drop_last();
        lemma_listing_excludes_metadata(root, home, rest);
        if forall|i: int| 0 <= i < items.len() ==> (#[trigger] items[i]).1 || items[i].0 == metadata_name() {
            assert forall|i: int| 0 <= i < rest.len() implies (#[trigger] rest[i]).1 || rest[i].0 == metadata_name() by {
                assert(rest[i] == items[i]);
            }
            assert(!is_managed(items[items.len() - 1]));
        }
        let m = managed_entries(root, home, items);
        let mr = managed_entries(root, home, rest);
        assert forall|j: int| 0 <= j < m.len() implies (#[trigger] m[j]).name != metadata_name() by {
            if j < mr.len() {
                assert(m[j] == mr[j]);
            }
        }
    }
}

} // verus!
