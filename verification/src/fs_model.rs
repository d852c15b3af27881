//! The one command's effect on the filesystem: a whole-file write. The
//! filesystem is seen as a map from paths to byte contents; a successful
//! write replaces one entry of that map and touches nothing else, and a
//! refused write changes nothing. An in-memory filesystem realises this
//! semantics executably and is what the command is proved and tested against;
//! the shell around the library performs the same operation through the
//! operating system.

use vstd::prelude::*;
use crate::string_map::StringMap;

verus! {

/// The filesystem as the command observes it: which paths hold which bytes.
pub type FsModel = Map<Seq<char>, Seq<u8>>;

/// The effect of one successful whole-file write: afterwards the file at
/// `path` holds exactly `bytes` — created if absent, truncated first if
/// present — and every other path is untouched.
pub open spec fn written(fs: FsModel, path: Seq<char>, bytes: Seq<u8>) -> FsModel {
    fs.insert(path, bytes)
}

/// An in-memory filesystem holding whole files by path.
pub struct InMemoryFs {
    files: StringMap<Vec<u8>>,
}

impl View for InMemoryFs {
    type V = FsModel;

    closed spec fn view(&self) -> FsModel {
        self.files@.map_values(|contents: Vec<u8>| contents@)
    }
}

impl InMemoryFs {
    /// A filesystem with no files.
    pub fn new() -> (fs: Self)
        ensures
            fs@ == Map::<Seq<char>, Seq<u8>>::empty(),
    {
        let fs = InMemoryFs { files: StringMap::new() };
        proof {
            assert(fs@ =~= Map::<Seq<char>, Seq<u8>>::empty());
        }
        fs
    }

    /// The contents of the file at `path`, if one exists.
    pub fn read(&self, path: &String) -> (found: Option<&Vec<u8>>)
        ensures
            match found {
                Some(contents) => self@.contains_key(path@) && contents@ == self@[path@],
                None => !self@.contains_key(path@),
            },
    {
        self.files.get(path)
    }
}

/// The shell's one command: overwrite the file at `path` with exactly
/// `bytes`, creating the file if absent. Against the in-memory filesystem
/// the write always succeeds; performed on the real filesystem instead, the
/// operating system may refuse it, and the shell then changes nothing and
/// returns the text of the OS error.
pub fn save_binary_file(fs: &mut InMemoryFs, path: String, bytes: Vec<u8>) -> (outcome: Result<
    (),
    String,
>)
    ensures
        outcome is Ok,
        final(fs)@ == written(old(fs)@, path@, bytes@),
        final(fs)@[path@] == bytes@,
{
    fs.files.insert(path, bytes);
    proof {
        assert(fs@ =~= written(old(fs)@, path@, bytes@));
    }
    Ok(())
}

/// After a write, the file at `path` holds exactly the bytes supplied — the
/// empty sequence included — and no other path is created, removed or
/// changed.
pub proof fn lemma_write_exact(fs: FsModel, path: Seq<char>, bytes: Seq<u8>)
    ensures
        written(fs, path, bytes).contains_key(path),
        written(fs, path, bytes)[path] == bytes,
        written(fs, path, bytes).remove(path) == fs.remove(path),
{
    assert(written(fs, path, bytes).remove(path) =~= fs.remove(path));
}

/// Idempotence: writing the same bytes to the same path twice leaves the
/// filesystem exactly as writing them once does.
pub proof fn lemma_write_idempotent(fs: FsModel, path: Seq<char>, bytes: Seq<u8>)
    ensures
        written(written(fs, path, bytes), path, bytes) == written(fs, path, bytes),
{
    assert(written(written(fs, path, bytes), path, bytes) =~= written(fs, path, bytes));
}

/// Overwriting: writing `first` and then `second` to the same path leaves
/// the file holding exactly `second` — no residue of `first`, however long
/// it was — and the filesystem exactly as if only `second` had been written.
pub proof fn lemma_write_overwrites(fs: FsModel, path: Seq<char>, first: Seq<u8>, second: Seq<u8>)
    ensures
        written(written(fs, path, first), path, second) == written(fs, path, second),
        written(written(fs, path, first), path, second)[path] == second,
{
    assert(written(written(fs, path, first), path, second) =~= written(fs, path, second));
}

} // verus!
