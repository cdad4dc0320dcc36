//! Where the bytes of a resource live.

use vstd::prelude::*;

verus! {

/// Errors raised while resolving, selecting or accumulating resources.
#[derive(Clone, Debug, PartialEq, Eq)]
pub enum ResourceError {
    /// A filesystem path could not be read; holds the path.
    Io(String),
    /// A compiled bytecode file is shorter than its 16-byte header.
    BytecodeTooShort,
    /// A default variant was asked of a variant set with no member.
    EmptyVariantSet,
    /// The placement asked for a resource is not possible for this builder;
    /// holds the resource's name.
    UnsupportedPlacement(String),
    /// The bytecode compiler failed; holds its message.
    CompilerFailure(String),
}

/// A read-only picture of the files that paths may refer to.
///
/// Reading the filesystem happens outside this library: a caller reads the
/// files it needs and records them here. A path that was never recorded is
/// an unreadable path.
pub struct FileSnapshot {
    files: Vec<(String, Vec<u8>)>,
}

/// Content recorded for `path` in `entries`; a later record of a path
/// replaces an earlier one.
pub open spec fn lookup_entries(entries: Seq<(String, Vec<u8>)>, path: Seq<char>) -> Option<Seq<u8>>
    decreases entries.len(),
{
    if entries.len() == 0 {
        None
    } else if entries.last().0@ == path {
        Some(entries.last().1@)
    } else {
        lookup_entries(entries.drop_last(), path)
    }
}

impl FileSnapshot {
    /// Content of the file at `path`, if it was recorded.
    pub closed spec fn lookup(&self, path: Seq<char>) -> Option<Seq<u8>> {
        lookup_entries(self.files@, path)
    }

    /// A snapshot in which no path is readable.
    pub fn new() -> (r: FileSnapshot)
        ensures
            forall|p: Seq<char>| #[trigger] r.lookup(p) is None,
    {
        FileSnapshot { files: Vec::new() }
    }

    /// Records `data` as the content of `path`.
    pub fn insert(&mut self, path: String, data: Vec<u8>)
        ensures
            final(self).lookup(path@) == Some(data@),
            forall|p: Seq<char>| p != path@ ==> #[trigger] final(self).lookup(p) == old(self).lookup(p),
    {
        let ghost old_files = self.files@;
        self.files.push((path, data));
        proof {
            assert(self.files@.drop_last() =~= old_files);
        }
    }

    /// Content of the file at `path`, if it was recorded.
    pub fn read(&self, path: &String) -> (r: Option<Vec<u8>>)
        ensures
            match r {
                Some(d) => self.lookup(path@) == Some(d@),
                None => self.lookup(path@) is None,
            },
    {
        let mut i: usize = self.files.len();
        assert(self.files@.take(i as int) =~= self.files@);
        while i > 0
            invariant
                i <= self.files.len(),
                lookup_entries(self.files@.take(i as int), path@) == self.lookup(path@),
            decreases i,
        {
            let ghost prefix = self.files@.take(i as int);
            assert(prefix.drop_last() =~= self.files@.take(i - 1));
            if self.files[i - 1].0 == *path {
                return Some(self.files[i - 1].1.clone());
            }
            i = i - 1;
        }
        None
    }
}

/// What a `DataLocation` holds, as a mathematical value.
pub enum LocationModel {
    OnDisk(Seq<char>),
    InMemory(Seq<u8>),
}

/// Represents an abstract location for binary data: a path in the
/// filesystem, or bytes held in memory.
#[derive(Clone, Debug, PartialEq)]
pub enum DataLocation {
    Path(String),
    Memory(Vec<u8>),
}

impl View for DataLocation {
    type V = LocationModel;

    open spec fn view(&self) -> LocationModel {
        match self {
            DataLocation::Path(p) => LocationModel::OnDisk(p@),
            DataLocation::Memory(d) => LocationModel::InMemory(d@),
        }
    }
}

impl LocationModel {
    /// The bytes this location resolves to when the filesystem looks like
    /// `disk`; `None` when its path cannot be read.
    pub open spec fn content(self, disk: FileSnapshot) -> Option<Seq<u8>> {
        match self {
            LocationModel::OnDisk(p) => disk.lookup(p),
            LocationModel::InMemory(d) => Some(d),
        }
    }

    /// Whether this location can be resolved under `disk`.
    pub open spec fn resolvable(self, disk: FileSnapshot) -> bool {
        self.content(disk) is Some
    }

    /// Whether `self` is an in-memory copy of what `orig` resolves to under
    /// `disk`.
    pub open spec fn promotes(self, orig: LocationModel, disk: FileSnapshot) -> bool {
        &&& self is InMemory
        &&& orig.content(disk) == Some(self->InMemory_0)
    }
}

/// Whether every location of `locs` can be resolved under `disk`.
pub open spec fn all_resolvable(locs: Seq<DataLocation>, disk: FileSnapshot) -> bool {
    forall|i: int| 0 <= i < locs.len() ==> (#[trigger] locs[i])@.resolvable(disk)
}

/// Whether `new` holds, position by position, in-memory copies of `orig`.
pub open spec fn all_promoted(new: Seq<DataLocation>, orig: Seq<DataLocation>, disk: FileSnapshot) -> bool {
    &&& new.len() == orig.len()
    &&& forall|i: int| 0 <= i < new.len() ==> (#[trigger] new[i])@.promotes(orig[i]@, disk)
}

/// A copy of `l` with the same view.
pub fn copy_location(l: &DataLocation) -> (r: DataLocation)
    ensures
        r@ == l@,
{
    match l {
        DataLocation::Path(p) => DataLocation::Path(p.clone()),
        DataLocation::Memory(d) => DataLocation::Memory(d.clone()),
    }
}

impl DataLocation {
    /// Resolve the raw content of this instance.
    pub fn resolve(&self, disk: &FileSnapshot) -> (r: Result<Vec<u8>, ResourceError>)
        ensures
            match r {
                Ok(d) => self@.content(*disk) == Some(d@),
                Err(e) => !self@.resolvable(*disk) && e == ResourceError::Io(self->Path_0),
            },
    {
        match self {
            DataLocation::Path(p) => match disk.read(p) {
                Some(d) => Ok(d),
                None => Err(ResourceError::Io(p.clone())),
            },
            DataLocation::Memory(d) => Ok(d.clone()),
        }
    }

    /// Resolve the instance to a `Memory` variant.
    pub fn to_memory(&self, disk: &FileSnapshot) -> (r: Result<DataLocation, ResourceError>)
        ensures
            r is Ok <==> self@.resolvable(*disk),
            r matches Ok(l) ==> l@.promotes(self@, *disk),
            r matches Err(e) ==> e == ResourceError::Io(self->Path_0),
    {
        let d = self.resolve(disk)?;
        Ok(DataLocation::Memory(d))
    }
}

/// In-memory copies of every location of `locs`.
pub fn locations_to_memory(locs: &Vec<DataLocation>, disk: &FileSnapshot) -> (r: Result<
    Vec<DataLocation>,
    ResourceError,
>)
    ensures
        r is Ok <==> all_resolvable(locs@, *disk),
        r matches Ok(v) ==> all_promoted(v@, locs@, *disk),
{
    let mut out: Vec<DataLocation> = Vec::new();
    for i in 0..locs.len()
        invariant
            out@.len() == i,
            all_resolvable(locs@.take(i as int), *disk),
            forall|j: int| 0 <= j < i ==> (#[trigger] out@[j])@.promotes(locs@[j]@, *disk),
    {
        let l = locs[i].to_memory(disk)?;
        out.push(l);
        assert(locs@.take(i + 1)[i as int] == locs@[i as int]);
    }
    assert(locs@.take(locs.len() as int) =~= locs@);
    Ok(out)
}

} // verus!
