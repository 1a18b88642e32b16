use vstd::prelude::*;

verus! {

/// What a path of the filesystem holds.
pub enum Node {
    File(Seq<u8>),
    Dir,
    Symlink(Seq<char>),
}

/// The filesystem as a map from absolute paths to what they hold.
pub type FsState = Map<Seq<char>, Node>;

/// The filesystem after renaming `from` to `to`; whatever stood at `to` is
/// replaced. Nothing changes where `from` is absent.
pub open spec fn renamed(fs: FsState, from: Seq<char>, to: Seq<char>) -> FsState {
    if fs.contains_key(from) {
        fs.remove(from).insert(to, fs[from])
    } else {
        fs
    }
}

/// The filesystem after creating a symbolic link at `at` to `target`;
/// nothing changes where `at` is occupied.
pub open spec fn linked(fs: FsState, target: Seq<char>, at: Seq<char>) -> FsState {
    if fs.contains_key(at) {
        fs
    } else {
        fs.insert(at, Node::Symlink(target))
    }
}

} // verus!
