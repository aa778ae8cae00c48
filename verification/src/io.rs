//! Files that were loaded into memory, by path.

use vstd::prelude::*;

verus! {

/// Why a loaded resource could not be turned into meshes and materials.
#[derive(Clone, Debug, PartialEq, Eq)]
pub enum IOError {
    /// No bytes are loaded under the path.
    NotLoaded(String),
    /// A buffer of the model is said to lie in the binary part of the file,
    /// which has none, or none any more.
    GltfMissingData,
    /// A buffer or an image of the model is shorter than the model says.
    GltfCorruptData,
    /// An image lies in a buffer view with a stride.
    GltfStridedImage,
}

/// One loaded file.
pub struct LoadedFile {
    pub path: String,
    pub bytes: Vec<u8>,
}

/// The files that were loaded, each with the path it was loaded from.
pub struct Loaded {
    files: Vec<LoadedFile>,
}

/// The loaded files as pairs of path and content.
pub type Files = Seq<(Seq<char>, Seq<u8>)>;

impl View for Loaded {
    type V = Files;

    closed spec fn view(&self) -> Files {
        Seq::new(self.files@.len(), |i: int| (self.files@[i].path@, self.files@[i].bytes@))
    }
}

/// Whether nothing is loaded under `path`.
pub open spec fn absent(files: Files, path: Seq<char>) -> bool {
    forall|i: int| 0 <= i < files.len() ==> (#[trigger] files[i]).0 != path
}

/// Whether `i` is the place of the file loaded under `path`: the first with
/// that path.
pub open spec fn first_at(files: Files, path: Seq<char>, i: int) -> bool {
    &&& 0 <= i < files.len()
    &&& files[i].0 == path
    &&& forall|j: int| 0 <= j < i ==> (#[trigger] files[j]).0 != path
}

/// The place of the file loaded under `path`.
pub open spec fn position(files: Files, path: Seq<char>) -> int {
    choose|i: int| first_at(files, path, i)
}

/// What is loaded under `path`.
pub open spec fn bytes_of(files: Files, path: Seq<char>) -> Option<Seq<u8>> {
    if absent(files, path) {
        None
    } else {
        Some(files[position(files, path)].1)
    }
}

/// The files without the one loaded under `path`.
pub open spec fn without(files: Files, path: Seq<char>) -> Files {
    if absent(files, path) {
        files
    } else {
        files.remove(position(files, path))
    }
}

/// The files with `bytes` loaded under `path`, in place of what was loaded
/// under it before.
pub open spec fn with(files: Files, path: Seq<char>, bytes: Seq<u8>) -> Files {
    if absent(files, path) {
        files.push((path, bytes))
    } else {
        files.update(position(files, path), (path, bytes))
    }
}

/// A path has one place at most.
pub proof fn lemma_position_is_unique(files: Files, path: Seq<char>, i: int)
    requires
        first_at(files, path, i),
    ensures
        !absent(files, path),
        position(files, path) == i,
{
    let p = position(files, path);
    assert(first_at(files, path, p));
    if p < i {
        assert(files[p].0 != path);
    } else if i < p {
        assert(files[i].0 != path);
    }
    assert(files[i].0 == path);
}

/// A copy of `len` bytes of `bytes`, starting at `from`.
pub fn copy_range(bytes: &Vec<u8>, from: usize, len: usize) -> (copy: Vec<u8>)
    requires
        from + len <= bytes@.len(),
    ensures
        copy@ == bytes@.subrange(from as int, from + len),
{
    let mut copy: Vec<u8> = Vec::new();
    let total: usize = bytes.len();
    let mut i: usize = 0;
    while i < len
        invariant
            i <= len,
            total == bytes@.len(),
            from + len <= bytes@.len(),
            copy@ == bytes@.subrange(from as int, from + i),
        decreases len - i,
    {
        copy.push(bytes[from + i]);
        proof {
            assert(copy@ =~= bytes@.subrange(from as int, from + i + 1));
        }
        i = i + 1;
    }
    copy
}

impl Loaded {
    /// No files.
    pub fn new() -> (loaded: Loaded)
        ensures
            loaded@ == Seq::<(Seq<char>, Seq<u8>)>::empty(),
    {
        let loaded = Loaded { files: Vec::new() };
        proof {
            assert(loaded@ =~= Seq::<(Seq<char>, Seq<u8>)>::empty());
        }
        loaded
    }

    /// The place of the file loaded under `path`.
    fn index_of(&self, path: &String) -> (place: Option<usize>)
        ensures
            match place {
                Some(i) => first_at(self@, path@, i as int),
                None => absent(self@, path@),
            },
    {
        let mut i: usize = 0;
        while i < self.files.len()
            invariant
                i <= self.files@.len(),
                self@.len() == self.files@.len(),
                forall|j: int| 0 <= j < i ==> (#[trigger] self@[j]).0 != path@,
            decreases self.files@.len() - i,
        {
            if self.files[i].path == *path {
                return Some(i);
            }
            i = i + 1;
        }
        None
    }

    /// Loads `bytes` under `path`, in place of what was loaded under it.
    pub fn insert_bytes(&mut self, path: String, bytes: Vec<u8>)
        ensures
            final(self)@ == with(old(self)@, path@, bytes@),
    {
        match self.index_of(&path) {
            Some(i) => {
                proof {
                    lemma_position_is_unique(self@, path@, i as int);
                }
                self.files.set(i, LoadedFile { path, bytes });
            },
            None => {
                self.files.push(LoadedFile { path, bytes });
            },
        }
        proof {
            assert(final(self)@ =~= with(old(self)@, path@, bytes@));
        }
    }

    /// What is loaded under `path`.
    pub fn get_bytes(&self, path: &String) -> (bytes: Result<&Vec<u8>, IOError>)
        ensures
            match bytes_of(self@, path@) {
                Some(content) => bytes matches Ok(b) && b@ == content,
                None => bytes == Err::<&Vec<u8>, IOError>(IOError::NotLoaded(*path)),
            },
    {
        match self.index_of(path) {
            Some(i) => {
                proof {
                    lemma_position_is_unique(self@, path@, i as int);
                }
                Ok(&self.files[i].bytes)
            },
            None => Err(IOError::NotLoaded(path.clone())),
        }
    }

    /// Takes what is loaded under `path` out of the loaded files.
    pub fn remove_bytes(&mut self, path: &String) -> (bytes: Result<Vec<u8>, IOError>)
        ensures
            final(self)@ == without(old(self)@, path@),
            match bytes_of(old(self)@, path@) {
                Some(content) => bytes matches Ok(b) && b@ == content,
                None => bytes == Err::<Vec<u8>, IOError>(IOError::NotLoaded(*path)),
            },
    {
        match self.index_of(path) {
            Some(i) => {
                proof {
                    lemma_position_is_unique(self@, path@, i as int);
                }
                let file = self.files.remove(i);
                proof {
                    assert(final(self)@ =~= old(self)@.remove(i as int));
                }
                Ok(file.bytes)
            },
            None => Err(IOError::NotLoaded(path.clone())),
        }
    }
}

} // verus!
