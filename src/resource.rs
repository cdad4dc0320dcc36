//! The kinds of resources that can be embedded next to a Python
//! interpreter, and how each resolves its content and its path.

use vstd::prelude::*;

use crate::location::{
    all_promoted, all_resolvable, copy_location, locations_to_memory, DataLocation, FileSnapshot,
    LocationModel, ResourceError,
};
use crate::naming::{
    is_dotted, is_name_within_package, is_package_path, is_package_from_path, is_within_package,
    join, join_path, last_segment, lemma_rfind, module_dir, module_file_path, parent_name, rfind_char,
    resolve_path_for_module, slashed, slashed_name, split_on, split_on_char,
};

verus! {

/// Length of the header that precedes bytecode in a cached `.pyc` file.
pub const BYTECODE_HEADER_LEN: usize = 16;

/// An optimization level for Python bytecode.
#[derive(Clone, Copy, Debug, PartialEq, Eq, Structural)]
pub enum BytecodeOptimizationLevel {
    Zero,
    One,
    Two,
}

/// The file name tag that bytecode of optimization level `level` carries
/// after the cache tag.
pub open spec fn extra_tag(level: BytecodeOptimizationLevel) -> Seq<char> {
    match level {
        BytecodeOptimizationLevel::Zero => seq![],
        BytecodeOptimizationLevel::One => seq!['.', 'o', 'p', 't', '-', '1'],
        BytecodeOptimizationLevel::Two => seq!['.', 'o', 'p', 't', '-', '2'],
    }
}

/// The integer that stands for optimization level `level`.
pub open spec fn level_number(level: BytecodeOptimizationLevel) -> i32 {
    match level {
        BytecodeOptimizationLevel::Zero => 0,
        BytecodeOptimizationLevel::One => 1,
        BytecodeOptimizationLevel::Two => 2,
    }
}

impl BytecodeOptimizationLevel {
    /// Determine the extra filename tag for bytecode files of this variant.
    pub fn to_extra_tag(&self) -> (r: &'static str)
        ensures
            r@ == extra_tag(*self),
    {
        proof {
            reveal_strlit("");
            reveal_strlit(".opt-1");
            reveal_strlit(".opt-2");
        }
        match self {
            BytecodeOptimizationLevel::Zero => "",
            BytecodeOptimizationLevel::One => ".opt-1",
            BytecodeOptimizationLevel::Two => ".opt-2",
        }
    }
}

impl TryFrom<i32> for BytecodeOptimizationLevel {
    type Error = &'static str;

    fn try_from(i: i32) -> (r: Result<Self, Self::Error>) {
        match i {
            0 => Ok(BytecodeOptimizationLevel::Zero),
            1 => Ok(BytecodeOptimizationLevel::One),
            2 => Ok(BytecodeOptimizationLevel::Two),
            _ => Err("unsupported bytecode optimization level"),
        }
    }
}

impl vstd::std_specs::convert::TryFromSpecImpl<i32> for BytecodeOptimizationLevel {
    open spec fn obeys_try_from_spec() -> bool {
        true
    }

    open spec fn try_from_spec(v: i32) -> Result<Self, Self::Error> {
        if v == 0 {
            Ok(BytecodeOptimizationLevel::Zero)
        } else if v == 1 {
            Ok(BytecodeOptimizationLevel::One)
        } else if v == 2 {
            Ok(BytecodeOptimizationLevel::Two)
        } else {
            Err("unsupported bytecode optimization level")
        }
    }
}

impl From<BytecodeOptimizationLevel> for i32 {
    fn from(level: BytecodeOptimizationLevel) -> (r: i32) {
        match level {
            BytecodeOptimizationLevel::Zero => 0,
            BytecodeOptimizationLevel::One => 1,
            BytecodeOptimizationLevel::Two => 2,
        }
    }
}

impl vstd::std_specs::convert::FromSpecImpl<BytecodeOptimizationLevel> for i32 {
    open spec fn obeys_from_spec() -> bool {
        true
    }

    open spec fn from_spec(v: BytecodeOptimizationLevel) -> i32 {
        level_number(v)
    }
}

/// An owned copy of `data`.
pub fn copy_bytes(data: &[u8]) -> (r: Vec<u8>)
    ensures
        r@ == data@,
{
    let mut out: Vec<u8> = Vec::new();
    for i in 0..data.len()
        invariant
            out@ =~= data@.take(i as int),
    {
        out.push(data[i]);
    }
    assert(data@.take(data@.len() as int) =~= data@);
    out
}

/// An owned copy of `data` without its first `start` bytes.
fn bytes_from(data: &Vec<u8>, start: usize) -> (r: Vec<u8>)
    requires
        start <= data.len(),
    ensures
        r@ == data@.skip(start as int),
{
    let mut out: Vec<u8> = Vec::new();
    for i in start..data.len()
        invariant
            start <= i <= data.len(),
            out@ =~= data@.subrange(start as int, i as int),
    {
        out.push(data[i]);
    }
    out
}

/// The bytes of `__file__`.
pub open spec fn dunder_file_bytes() -> Seq<u8> {
    seq![95u8, 95u8, 102u8, 105u8, 108u8, 101u8, 95u8, 95u8]
}

/// Whether `source` mentions `__file__`.
pub open spec fn mentions_dunder_file(source: Seq<u8>) -> bool {
    exists|i: int| 0 <= i && i + 8 <= source.len() && #[trigger] source.subrange(i, i + 8) == dunder_file_bytes()
}

/// Whether `source` mentions `__file__`.
pub fn source_mentions_dunder_file(source: &Vec<u8>) -> (r: bool)
    ensures
        r == mentions_dunder_file(source@),
{
    if source.len() < 8 {
        return false;
    }
    let last = source.len() - 8;
    for i in 0..last + 1
        invariant
            last + 8 == source.len(),
            forall|j: int| 0 <= j < i ==> #[trigger] source@.subrange(j, j + 8) != dunder_file_bytes(),
    {
        if source[i] == 95 && source[i + 1] == 95 && source[i + 2] == 102 && source[i + 3] == 105
            && source[i + 4] == 108 && source[i + 5] == 101 && source[i + 6] == 95 && source[i + 7] == 95 {
            assert(source@.subrange(i as int, i + 8) =~= dunder_file_bytes());
            return true;
        }
        assert(source@.subrange(i as int, i + 8)[0] == source@[i as int]);
        assert(source@.subrange(i as int, i + 8)[1] == source@[i + 1]);
        assert(source@.subrange(i as int, i + 8)[2] == source@[i + 2]);
        assert(source@.subrange(i as int, i + 8)[3] == source@[i + 3]);
        assert(source@.subrange(i as int, i + 8)[4] == source@[i + 4]);
        assert(source@.subrange(i as int, i + 8)[5] == source@[i + 5]);
        assert(source@.subrange(i as int, i + 8)[6] == source@[i + 6]);
        assert(source@.subrange(i as int, i + 8)[7] == source@[i + 7]);
    }
    false
}

/// The package that module `name` belongs to: itself when it is a
/// package, else the name before its last dot, else itself.
pub open spec fn package_of(name: Seq<char>, is_package: bool) -> Seq<char> {
    if is_package {
        name
    } else if is_dotted(name) {
        parent_name(name)
    } else {
        name
    }
}

/// The tag that bytecode files of optimization level `level` carry, for
/// an interpreter with cache tag `cache_tag`.
pub open spec fn bytecode_tag(cache_tag: Seq<char>, level: BytecodeOptimizationLevel) -> Seq<char> {
    cache_tag + extra_tag(level)
}

/// The tag that bytecode files of optimization level `level` carry.
fn bytecode_tag_of(cache_tag: &String, level: BytecodeOptimizationLevel) -> (r: String)
    ensures
        r@ == bytecode_tag(cache_tag@, level),
{
    let mut tag = cache_tag.clone();
    tag.append(level.to_extra_tag());
    tag
}

/// A Python module defined via source code.
#[derive(Clone, Debug, PartialEq)]
pub struct PythonModuleSource {
    /// The fully qualified Python module name.
    pub name: String,
    /// Python source code.
    pub source: DataLocation,
    /// Whether this module is also a package.
    pub is_package: bool,
    /// Tag to apply to bytecode files, e.g. `cpython-37`.
    pub cache_tag: String,
    /// Whether this module belongs to the Python standard library.
    pub is_stdlib: bool,
    /// Whether this module is a test module.
    pub is_test: bool,
}

impl PythonModuleSource {
    /// Whether the content of this module can be resolved under `disk`.
    pub open spec fn resolvable(&self, disk: FileSnapshot) -> bool {
        self.source@.resolvable(disk)
    }

    /// Whether `self` is `orig` with its source held in memory, as read
    /// under `disk`.
    pub open spec fn is_memory_copy_of(&self, orig: &Self, disk: FileSnapshot) -> bool {
        &&& self.name@ == orig.name@
        &&& self.is_package == orig.is_package
        &&& self.cache_tag@ == orig.cache_tag@
        &&& self.is_stdlib == orig.is_stdlib
        &&& self.is_test == orig.is_test
        &&& self.source@.promotes(orig.source@, disk)
    }

    pub fn to_memory(&self, disk: &FileSnapshot) -> (r: Result<Self, ResourceError>)
        ensures
            r is Ok <==> self.resolvable(*disk),
            r matches Ok(m) ==> m.is_memory_copy_of(self, *disk),
            r matches Err(e) ==> e == ResourceError::Io(self.source->Path_0),
    {
        Ok(Self {
            name: self.name.clone(),
            source: self.source.to_memory(disk)?,
            is_package: self.is_package,
            cache_tag: self.cache_tag.clone(),
            is_stdlib: self.is_stdlib,
            is_test: self.is_test,
        })
    }

    /// Resolve the package containing this module.
    ///
    /// If this module is a package, returns the name of self.
    pub fn package(&self) -> (r: String)
        ensures
            r@ == package_of(self.name@, self.is_package),
    {
        if self.is_package {
            self.name.clone()
        } else {
            match rfind_char(self.name.as_str(), '.') {
                Some(idx) => {
                    proof {
                        lemma_rfind(self.name@, '.');
                    }
                    let r = String::from_str(self.name.as_str().substring_char(0, idx));
                    assert(r@ =~= parent_name(self.name@));
                    r
                },
                None => self.name.clone(),
            }
        }
    }

    /// Convert the instance to a request for bytecode.
    pub fn as_bytecode_module(&self, optimize_level: BytecodeOptimizationLevel) -> (r:
        PythonModuleBytecodeFromSource)
        ensures
            r.name@ == self.name@,
            r.source@ == self.source@,
            r.optimize_level == optimize_level,
            r.is_package == self.is_package,
            r.cache_tag@ == self.cache_tag@,
            r.is_stdlib == self.is_stdlib,
            r.is_test == self.is_test,
    {
        PythonModuleBytecodeFromSource {
            name: self.name.clone(),
            source: copy_location(&self.source),
            optimize_level,
            is_package: self.is_package,
            cache_tag: self.cache_tag.clone(),
            is_stdlib: self.is_stdlib,
            is_test: self.is_test,
        }
    }

    /// Resolve the filesystem path for this source module.
    pub fn resolve_path(&self, prefix: &str) -> (r: String)
        ensures
            r@ == module_file_path(prefix@, self.name@, self.is_package, None),
    {
        resolve_path_for_module(prefix, self.name.as_str(), self.is_package, None)
    }

    /// Whether the source code for this module mentions `__file__`.
    pub fn has_dunder_file(&self, disk: &FileSnapshot) -> (r: Result<bool, ResourceError>)
        ensures
            r is Ok <==> self.resolvable(*disk),
            r matches Ok(b) ==> b == mentions_dunder_file(self.source@.content(*disk)->Some_0),
            r matches Err(e) ==> e == ResourceError::Io(self.source->Path_0),
    {
        let source = self.source.resolve(disk)?;
        Ok(source_mentions_dunder_file(&source))
    }
}

/// How a bytecode compiler writes its output.
#[derive(Clone, Copy, Debug, PartialEq, Eq, Structural)]
pub enum CompileMode {
    /// Raw bytecode, without a header.
    Bytecode,
    /// A `.pyc` file whose header holds a checked source hash.
    PycCheckedHash,
    /// A `.pyc` file whose header holds an unchecked source hash.
    PycUncheckedHash,
}

/// Something that turns Python source into bytecode.
pub trait PythonBytecodeCompiler {
    /// Compile `source`, the module `filename`, at optimization level
    /// `optimize`.
    fn compile(
        &mut self,
        source: &[u8],
        filename: &str,
        optimize: BytecodeOptimizationLevel,
        output_mode: CompileMode,
    ) -> Result<Vec<u8>, ResourceError>;
}

/// Python module bytecode defined via source code.
///
/// This is a request to generate bytecode from Python module source code.
#[derive(Clone, Debug, PartialEq)]
pub struct PythonModuleBytecodeFromSource {
    pub name: String,
    pub source: DataLocation,
    pub optimize_level: BytecodeOptimizationLevel,
    pub is_package: bool,
    /// Tag to apply to bytecode files, e.g. `cpython-37`.
    pub cache_tag: String,
    /// Whether this module belongs to the Python standard library.
    pub is_stdlib: bool,
    /// Whether this module is a test module.
    pub is_test: bool,
}

impl PythonModuleBytecodeFromSource {
    /// Whether the source of this request can be resolved under `disk`.
    pub open spec fn resolvable(&self, disk: FileSnapshot) -> bool {
        self.source@.resolvable(disk)
    }

    /// Whether `self` is `orig` with its source held in memory, as read
    /// under `disk`.
    pub open spec fn is_memory_copy_of(&self, orig: &Self, disk: FileSnapshot) -> bool {
        &&& self.name@ == orig.name@
        &&& self.optimize_level == orig.optimize_level
        &&& self.is_package == orig.is_package
        &&& self.cache_tag@ == orig.cache_tag@
        &&& self.is_stdlib == orig.is_stdlib
        &&& self.is_test == orig.is_test
        &&& self.source@.promotes(orig.source@, disk)
    }

    pub fn to_memory(&self, disk: &FileSnapshot) -> (r: Result<Self, ResourceError>)
        ensures
            r is Ok <==> self.resolvable(*disk),
            r matches Ok(m) ==> m.is_memory_copy_of(self, *disk),
            r matches Err(e) ==> e == ResourceError::Io(self.source->Path_0),
    {
        Ok(Self {
            name: self.name.clone(),
            source: self.source.to_memory(disk)?,
            optimize_level: self.optimize_level,
            is_package: self.is_package,
            cache_tag: self.cache_tag.clone(),
            is_stdlib: self.is_stdlib,
            is_test: self.is_test,
        })
    }

    /// Compile source to bytecode using a compiler.
    ///
    /// The compiler is handed the resolved source, the module name and the
    /// optimization level; what it returns is returned unchanged.
    pub fn compile<C: PythonBytecodeCompiler>(&self, compiler: &mut C, mode: CompileMode, disk: &FileSnapshot) -> (r:
        Result<Vec<u8>, ResourceError>)
        ensures
            !self.resolvable(*disk) ==> r == Err::<Vec<u8>, ResourceError>(
                ResourceError::Io(self.source->Path_0),
            ),
    {
        let source = self.source.resolve(disk)?;
        compiler.compile(source.as_slice(), self.name.as_str(), self.optimize_level, mode)
    }

    /// Resolve filesystem path to this bytecode.
    pub fn resolve_path(&self, prefix: &str) -> (r: String)
        ensures
            r@ == module_file_path(
                prefix@,
                self.name@,
                self.is_package,
                Some(bytecode_tag(self.cache_tag@, self.optimize_level)),
            ),
    {
        let tag = bytecode_tag_of(&self.cache_tag, self.optimize_level);
        resolve_path_for_module(prefix, self.name.as_str(), self.is_package, Some(tag.as_str()))
    }

    /// Whether the source for this module mentions `__file__`.
    pub fn has_dunder_file(&self, disk: &FileSnapshot) -> (r: Result<bool, ResourceError>)
        ensures
            r is Ok <==> self.resolvable(*disk),
            r matches Ok(b) ==> b == mentions_dunder_file(self.source@.content(*disk)->Some_0),
            r matches Err(e) ==> e == ResourceError::Io(self.source->Path_0),
    {
        let source = self.source.resolve(disk)?;
        Ok(source_mentions_dunder_file(&source))
    }
}

/// Compiled Python module bytecode.
#[derive(Clone, Debug, PartialEq)]
pub struct PythonModuleBytecode {
    pub name: String,
    /// The bytecode; a file at a path still carries the `.pyc` header.
    pub bytecode: DataLocation,
    pub optimize_level: BytecodeOptimizationLevel,
    pub is_package: bool,
    /// Tag to apply to bytecode files, e.g. `cpython-37`.
    pub cache_tag: String,
    /// Whether this module belongs to the Python standard library.
    pub is_stdlib: bool,
    /// Whether this module is a test module.
    pub is_test: bool,
}

/// The bytecode that `loc` resolves to under `disk`: bytes in memory as
/// they are, a file without its header; `None` when the file cannot be
/// read or is shorter than the header.
pub open spec fn bytecode_content(loc: LocationModel, disk: FileSnapshot) -> Option<Seq<u8>> {
    match loc {
        LocationModel::InMemory(d) => Some(d),
        LocationModel::OnDisk(p) => match disk.lookup(p) {
            Some(raw) => if raw.len() >= BYTECODE_HEADER_LEN {
                Some(raw.skip(BYTECODE_HEADER_LEN as int))
            } else {
                None
            },
            None => None,
        },
    }
}

impl PythonModuleBytecode {
    pub fn new(name: &str, optimize_level: BytecodeOptimizationLevel, is_package: bool, cache_tag: &str, data: &[u8]) -> (r:
        Self)
        ensures
            r.name@ == name@,
            r.bytecode@ == LocationModel::InMemory(data@),
            r.optimize_level == optimize_level,
            r.is_package == is_package,
            r.cache_tag@ == cache_tag@,
            !r.is_stdlib,
            !r.is_test,
    {
        Self {
            name: String::from_str(name),
            bytecode: DataLocation::Memory(copy_bytes(data)),
            optimize_level,
            is_package,
            cache_tag: String::from_str(cache_tag),
            is_stdlib: false,
            is_test: false,
        }
    }

    pub fn from_path(name: &str, optimize_level: BytecodeOptimizationLevel, cache_tag: &str, path: &str) -> (r:
        Self)
        ensures
            r.name@ == name@,
            r.bytecode@ == LocationModel::OnDisk(path@),
            r.optimize_level == optimize_level,
            r.is_package == is_package_path(path@),
            r.cache_tag@ == cache_tag@,
            !r.is_stdlib,
            !r.is_test,
    {
        Self {
            name: String::from_str(name),
            bytecode: DataLocation::Path(String::from_str(path)),
            optimize_level,
            is_package: is_package_from_path(path),
            cache_tag: String::from_str(cache_tag),
            is_stdlib: false,
            is_test: false,
        }
    }

    /// Whether the bytecode of this module can be resolved under `disk`.
    pub open spec fn resolvable(&self, disk: FileSnapshot) -> bool {
        bytecode_content(self.bytecode@, disk) is Some
    }

    /// Whether `self` is `orig` with its resolved bytecode held in memory,
    /// as read under `disk`.
    pub open spec fn is_memory_copy_of(&self, orig: &Self, disk: FileSnapshot) -> bool {
        &&& self.name@ == orig.name@
        &&& self.optimize_level == orig.optimize_level
        &&& self.is_package == orig.is_package
        &&& self.cache_tag@ == orig.cache_tag@
        &&& self.is_stdlib == orig.is_stdlib
        &&& self.is_test == orig.is_test
        &&& self.bytecode@ is InMemory
        &&& bytecode_content(orig.bytecode@, disk) == Some(self.bytecode@->InMemory_0)
    }

    pub fn to_memory(&self, disk: &FileSnapshot) -> (r: Result<Self, ResourceError>)
        ensures
            r is Ok <==> self.resolvable(*disk),
            r matches Ok(m) ==> m.is_memory_copy_of(self, *disk),
            r matches Err(e) ==> e == ResourceError::BytecodeTooShort || e == ResourceError::Io(
                self.bytecode->Path_0,
            ),
    {
        Ok(Self {
            name: self.name.clone(),
            bytecode: DataLocation::Memory(self.resolve_bytecode(disk)?),
            optimize_level: self.optimize_level,
            is_package: self.is_package,
            cache_tag: self.cache_tag.clone(),
            is_stdlib: self.is_stdlib,
            is_test: self.is_test,
        })
    }

    /// Resolve the bytecode data for this module.
    ///
    /// Bytecode read from a file loses the file's 16-byte header.
    pub fn resolve_bytecode(&self, disk: &FileSnapshot) -> (r: Result<Vec<u8>, ResourceError>)
        ensures
            match r {
                Ok(d) => bytecode_content(self.bytecode@, *disk) == Some(d@),
                Err(e) => {
                    &&& bytecode_content(self.bytecode@, *disk) is None
                    &&& disk.lookup(self.bytecode->Path_0@) is None ==> e == ResourceError::Io(
                        self.bytecode->Path_0,
                    )
                    &&& disk.lookup(self.bytecode->Path_0@) is Some ==> e
                        == ResourceError::BytecodeTooShort
                },
            },
    {
        match &self.bytecode {
            DataLocation::Memory(data) => Ok(data.clone()),
            DataLocation::Path(path) => match disk.read(path) {
                None => Err(ResourceError::Io(path.clone())),
                Some(data) => {
                    if data.len() >= BYTECODE_HEADER_LEN {
                        Ok(bytes_from(&data, BYTECODE_HEADER_LEN))
                    } else {
                        Err(ResourceError::BytecodeTooShort)
                    }
                },
            },
        }
    }

    /// Sets the bytecode for this module.
    pub fn set_bytecode(&mut self, data: &[u8])
        ensures
            final(self).bytecode@ == LocationModel::InMemory(data@),
            final(self).name == old(self).name,
            final(self).optimize_level == old(self).optimize_level,
            final(self).is_package == old(self).is_package,
            final(self).cache_tag == old(self).cache_tag,
            final(self).is_stdlib == old(self).is_stdlib,
            final(self).is_test == old(self).is_test,
    {
        self.bytecode = DataLocation::Memory(copy_bytes(data));
    }

    /// Resolve filesystem path to this bytecode.
    pub fn resolve_path(&self, prefix: &str) -> (r: String)
        ensures
            r@ == module_file_path(
                prefix@,
                self.name@,
                self.is_package,
                Some(bytecode_tag(self.cache_tag@, self.optimize_level)),
            ),
    {
        let tag = bytecode_tag_of(&self.cache_tag, self.optimize_level);
        resolve_path_for_module(prefix, self.name.as_str(), self.is_package, Some(tag.as_str()))
    }
}

/// What an optional string holds, as a mathematical value.
pub open spec fn opt_str(o: Option<String>) -> Option<Seq<char>> {
    match o {
        Some(s) => Some(s@),
        None => None,
    }
}

/// What an optional list of strings holds, as a mathematical value.
pub open spec fn opt_strs(o: Option<Vec<String>>) -> Option<Seq<Seq<char>>> {
    match o {
        Some(v) => Some(v.deep_view()),
        None => None,
    }
}

/// A copy of an optional string.
fn clone_opt_string(o: &Option<String>) -> (r: Option<String>)
    ensures
        opt_str(r) == opt_str(*o),
{
    match o {
        Some(s) => Some(s.clone()),
        None => None,
    }
}

/// A copy of a list of strings.
fn clone_strings(v: &Vec<String>) -> (r: Vec<String>)
    ensures
        r.deep_view() == v.deep_view(),
{
    let mut out: Vec<String> = Vec::new();
    for i in 0..v.len()
        invariant
            out.deep_view() =~= v.deep_view().take(i as int),
    {
        let ghost before = out.deep_view();
        let c = v[i].clone();
        out.push(c);
        assert(out.deep_view() =~= before.push(v.deep_view()[i as int]));
    }
    assert(v.deep_view().take(v.len() as int) =~= v.deep_view());
    out
}

/// A copy of an optional list of strings.
fn clone_opt_strings(o: &Option<Vec<String>>) -> (r: Option<Vec<String>>)
    ensures
        opt_strs(r) == opt_strs(*o),
{
    match o {
        Some(v) => Some(clone_strings(v)),
        None => None,
    }
}

/// Whether an optional location can be resolved under `disk`.
pub open spec fn opt_resolvable(o: Option<DataLocation>, disk: FileSnapshot) -> bool {
    match o {
        Some(l) => l@.resolvable(disk),
        None => true,
    }
}

/// Whether `new` is present exactly when `orig` is, as its in-memory copy.
pub open spec fn opt_promoted(new: Option<DataLocation>, orig: Option<DataLocation>, disk: FileSnapshot) -> bool {
    match (new, orig) {
        (Some(n), Some(o)) => n@.promotes(o@, disk),
        (None, None) => true,
        _ => false,
    }
}

/// An in-memory copy of an optional location.
fn opt_to_memory(o: &Option<DataLocation>, disk: &FileSnapshot) -> (r: Result<Option<DataLocation>, ResourceError>)
    ensures
        r is Ok <==> opt_resolvable(*o, *disk),
        r matches Ok(n) ==> opt_promoted(n, *o, *disk),
{
    match o {
        Some(l) => Ok(Some(l.to_memory(disk)?)),
        None => Ok(None),
    }
}

/// Python package resource data, agnostic of storage location.
#[derive(Clone, Debug, PartialEq)]
pub struct PythonPackageResource {
    /// The leaf-most Python package this resource belongs to.
    pub leaf_package: String,
    /// The relative path within `leaf_package` to this resource.
    pub relative_name: String,
    /// Location of resource data.
    pub data: DataLocation,
    /// Whether this resource belongs to the Python standard library.
    pub is_stdlib: bool,
    /// Whether this resource belongs to a package that is a test.
    pub is_test: bool,
}

/// The path of a resource `relative_name` of package `leaf_package` under
/// `prefix`.
pub open spec fn package_resource_path(prefix: Seq<char>, leaf_package: Seq<char>, relative_name: Seq<char>) -> Seq<char> {
    join(join(prefix, slashed(leaf_package)), relative_name)
}

impl PythonPackageResource {
    /// Whether the data of this resource can be resolved under `disk`.
    pub open spec fn resolvable(&self, disk: FileSnapshot) -> bool {
        self.data@.resolvable(disk)
    }

    /// Whether `self` is `orig` with its data held in memory, as read
    /// under `disk`.
    pub open spec fn is_memory_copy_of(&self, orig: &Self, disk: FileSnapshot) -> bool {
        &&& self.leaf_package@ == orig.leaf_package@
        &&& self.relative_name@ == orig.relative_name@
        &&& self.is_stdlib == orig.is_stdlib
        &&& self.is_test == orig.is_test
        &&& self.data@.promotes(orig.data@, disk)
    }

    pub fn to_memory(&self, disk: &FileSnapshot) -> (r: Result<Self, ResourceError>)
        ensures
            r is Ok <==> self.resolvable(*disk),
            r matches Ok(m) ==> m.is_memory_copy_of(self, *disk),
            r matches Err(e) ==> e == ResourceError::Io(self.data->Path_0),
    {
        Ok(Self {
            leaf_package: self.leaf_package.clone(),
            relative_name: self.relative_name.clone(),
            data: self.data.to_memory(disk)?,
            is_stdlib: self.is_stdlib,
            is_test: self.is_test,
        })
    }

    /// The name of this resource: `<leaf_package>:<relative_name>`.
    pub fn symbolic_name(&self) -> (r: String)
        ensures
            r@ == self.leaf_package@ + ":"@ + self.relative_name@,
    {
        let mut r = self.leaf_package.clone();
        r.append(":");
        r.append(self.relative_name.as_str());
        r
    }

    /// Resolve the filesystem path of this resource.
    pub fn resolve_path(&self, prefix: &str) -> (r: String)
        ensures
            r@ == package_resource_path(prefix@, self.leaf_package@, self.relative_name@),
    {
        let dir = join_path(prefix, slashed_name(self.leaf_package.as_str()).as_str());
        join_path(dir.as_str(), self.relative_name.as_str())
    }
}

/// Represents where a Python package distribution resource is materialized.
#[derive(Clone, Copy, Debug, PartialEq, Eq, Structural)]
pub enum PythonPackageDistributionResourceFlavor {
    /// In a .dist-info directory.
    DistInfo,
    /// In a .egg-info directory.
    EggInfo,
}

/// The name of the metadata directory of `package` at `version`.
pub open spec fn distribution_dir_name(
    flavor: PythonPackageDistributionResourceFlavor,
    package: Seq<char>,
    version: Seq<char>,
) -> Seq<char> {
    package + "-"@ + version + match flavor {
        PythonPackageDistributionResourceFlavor::DistInfo => ".dist-info"@,
        PythonPackageDistributionResourceFlavor::EggInfo => ".egg-info"@,
    }
}

/// Represents a file defining Python package metadata.
///
/// Instances of this correspond to files in a `<package>-<version>.dist-info`
/// or `.egg-info` directory.
#[derive(Clone, Debug, PartialEq)]
pub struct PythonPackageDistributionResource {
    /// Where the resource is materialized.
    pub location: PythonPackageDistributionResourceFlavor,
    /// The name of the Python package this resource is associated with.
    pub package: String,
    /// Version string of Python package.
    pub version: String,
    /// Name of this resource within the distribution.
    pub name: String,
    /// The raw content of the distribution resource.
    pub data: DataLocation,
}

impl PythonPackageDistributionResource {
    /// Whether the data of this resource can be resolved under `disk`.
    pub open spec fn resolvable(&self, disk: FileSnapshot) -> bool {
        self.data@.resolvable(disk)
    }

    /// Whether `self` is `orig` with its data held in memory, as read
    /// under `disk`.
    pub open spec fn is_memory_copy_of(&self, orig: &Self, disk: FileSnapshot) -> bool {
        &&& self.location == orig.location
        &&& self.package@ == orig.package@
        &&& self.version@ == orig.version@
        &&& self.name@ == orig.name@
        &&& self.data@.promotes(orig.data@, disk)
    }

    pub fn to_memory(&self, disk: &FileSnapshot) -> (r: Result<Self, ResourceError>)
        ensures
            r is Ok <==> self.resolvable(*disk),
            r matches Ok(m) ==> m.is_memory_copy_of(self, *disk),
            r matches Err(e) ==> e == ResourceError::Io(self.data->Path_0),
    {
        Ok(Self {
            location: self.location,
            package: self.package.clone(),
            version: self.version.clone(),
            name: self.name.clone(),
            data: self.data.to_memory(disk)?,
        })
    }

    /// Resolve filesystem path to this resource file.
    pub fn resolve_path(&self, prefix: &str) -> (r: String)
        ensures
            r@ == join(
                join(prefix@, distribution_dir_name(self.location, self.package@, self.version@)),
                self.name@,
            ),
    {
        let mut dir_name = self.package.clone();
        dir_name.append("-");
        dir_name.append(self.version.as_str());
        match self.location {
            PythonPackageDistributionResourceFlavor::DistInfo => dir_name.append(".dist-info"),
            PythonPackageDistributionResourceFlavor::EggInfo => dir_name.append(".egg-info"),
        }
        let dir = join_path(prefix, dir_name.as_str());
        join_path(dir.as_str(), self.name.as_str())
    }
}

/// Represents a dependency on a library.
#[derive(Clone, Debug, PartialEq)]
pub struct LibraryDependency {
    /// Name of the library, as the linker knows it.
    pub name: String,
    /// Static library version of library.
    pub static_library: Option<DataLocation>,
    /// Shared library version of library.
    pub dynamic_library: Option<DataLocation>,
    /// Whether this is a system framework (macOS).
    pub framework: bool,
    /// Whether this is a system library.
    pub system: bool,
}

impl LibraryDependency {
    /// Whether every library file of this dependency can be resolved under
    /// `disk`.
    pub open spec fn resolvable(&self, disk: FileSnapshot) -> bool {
        opt_resolvable(self.static_library, disk) && opt_resolvable(self.dynamic_library, disk)
    }

    /// Whether `self` is `orig` with its library files held in memory, as
    /// read under `disk`.
    pub open spec fn is_memory_copy_of(&self, orig: &Self, disk: FileSnapshot) -> bool {
        &&& self.name@ == orig.name@
        &&& self.framework == orig.framework
        &&& self.system == orig.system
        &&& opt_promoted(self.static_library, orig.static_library, disk)
        &&& opt_promoted(self.dynamic_library, orig.dynamic_library, disk)
    }

    pub fn to_memory(&self, disk: &FileSnapshot) -> (r: Result<Self, ResourceError>)
        ensures
            r is Ok <==> self.resolvable(*disk),
            r matches Ok(m) ==> m.is_memory_copy_of(self, *disk),
    {
        Ok(Self {
            name: self.name.clone(),
            static_library: opt_to_memory(&self.static_library, disk)?,
            dynamic_library: opt_to_memory(&self.dynamic_library, disk)?,
            framework: self.framework,
            system: self.system,
        })
    }
}

/// Whether every dependency of `libs` can be resolved under `disk`.
pub open spec fn libraries_resolvable(libs: Seq<LibraryDependency>, disk: FileSnapshot) -> bool {
    forall|i: int| 0 <= i < libs.len() ==> (#[trigger] libs[i]).resolvable(disk)
}

/// Whether `new` holds, position by position, in-memory copies of `orig`.
pub open spec fn libraries_promoted(new: Seq<LibraryDependency>, orig: Seq<LibraryDependency>, disk: FileSnapshot) -> bool {
    &&& new.len() == orig.len()
    &&& forall|i: int| 0 <= i < new.len() ==> (#[trigger] new[i]).is_memory_copy_of(&orig[i], disk)
}

/// Whether optional license texts can be resolved under `disk`.
pub open spec fn opt_all_resolvable(o: Option<Vec<DataLocation>>, disk: FileSnapshot) -> bool {
    match o {
        Some(v) => all_resolvable(v@, disk),
        None => true,
    }
}

/// Whether `new` is present exactly when `orig` is, as its in-memory copy.
pub open spec fn opt_all_promoted(new: Option<Vec<DataLocation>>, orig: Option<Vec<DataLocation>>, disk: FileSnapshot) -> bool {
    match (new, orig) {
        (Some(n), Some(o)) => all_promoted(n@, o@, disk),
        (None, None) => true,
        _ => false,
    }
}

/// In-memory copies of every dependency of `libs`.
fn libraries_to_memory(libs: &Vec<LibraryDependency>, disk: &FileSnapshot) -> (r: Result<
    Vec<LibraryDependency>,
    ResourceError,
>)
    ensures
        r is Ok <==> libraries_resolvable(libs@, *disk),
        r matches Ok(v) ==> libraries_promoted(v@, libs@, *disk),
{
    let mut out: Vec<LibraryDependency> = Vec::new();
    for i in 0..libs.len()
        invariant
            out@.len() == i,
            libraries_resolvable(libs@.take(i as int), *disk),
            forall|j: int| 0 <= j < i ==> (#[trigger] out@[j]).is_memory_copy_of(&libs@[j], *disk),
    {
        let l = libs[i].to_memory(disk)?;
        out.push(l);
        assert(libs@.take(i + 1)[i as int] == libs@[i as int]);
    }
    assert(libs@.take(libs.len() as int) =~= libs@);
    Ok(out)
}

/// The path of an extension module `name` with file suffix `suffix` under
/// `prefix`: in the directories of its packages, named after its last
/// segment.
pub open spec fn extension_path(prefix: Seq<char>, name: Seq<char>, suffix: Seq<char>) -> Seq<char> {
    join(module_dir(prefix, name, false), last_segment(name) + suffix)
}

/// Represents a Python extension module.
#[derive(Clone, Debug, PartialEq)]
pub struct PythonExtensionModule {
    /// The module name this extension module is providing.
    pub name: String,
    /// Name of the C function initializing this extension module.
    pub init_fn: Option<String>,
    /// Filename suffix to use when writing extension module data.
    pub extension_file_suffix: String,
    /// File data for linked extension module.
    pub shared_library: Option<DataLocation>,
    /// File data for object files linked together to produce this extension module.
    pub object_file_data: Vec<DataLocation>,
    /// Whether this extension module is a package.
    pub is_package: bool,
    /// Libraries that this extension depends on.
    pub link_libraries: Vec<LibraryDependency>,
    /// Whether this extension module is part of the Python standard library.
    pub is_stdlib: bool,
    /// Whether the extension module is compiled into libpython by default.
    pub builtin_default: bool,
    /// Whether the extension must be loaded to initialize Python.
    pub required: bool,
    /// Name of the variant of this extension module, when several versions
    /// of it are available to choose from.
    pub variant: Option<String>,
    /// SPDX license shortnames that apply to this extension or its library dependencies.
    pub licenses: Option<Vec<String>>,
    /// Files or text data of license text that apply to this extension.
    pub license_texts: Option<Vec<DataLocation>>,
    /// Whether the license for this extension and any library dependencies are in the public domain.
    pub license_public_domain: Option<bool>,
}

impl PythonExtensionModule {
    /// Whether every piece of data of this extension module can be resolved
    /// under `disk`.
    pub open spec fn resolvable(&self, disk: FileSnapshot) -> bool {
        &&& opt_resolvable(self.shared_library, disk)
        &&& all_resolvable(self.object_file_data@, disk)
        &&& libraries_resolvable(self.link_libraries@, disk)
        &&& opt_all_resolvable(self.license_texts, disk)
    }

    /// Whether `self` and `other` agree on everything but where their data
    /// is held.
    pub open spec fn same_metadata(&self, other: &Self) -> bool {
        &&& self.name@ == other.name@
        &&& opt_str(self.init_fn) == opt_str(other.init_fn)
        &&& self.extension_file_suffix@ == other.extension_file_suffix@
        &&& self.is_package == other.is_package
        &&& self.is_stdlib == other.is_stdlib
        &&& self.builtin_default == other.builtin_default
        &&& self.required == other.required
        &&& opt_str(self.variant) == opt_str(other.variant)
        &&& opt_strs(self.licenses) == opt_strs(other.licenses)
        &&& self.license_public_domain == other.license_public_domain
    }

    /// Whether `self` is `orig` with all of its data held in memory, as
    /// read under `disk`.
    pub open spec fn is_memory_copy_of(&self, orig: &Self, disk: FileSnapshot) -> bool {
        &&& self.same_metadata(orig)
        &&& opt_promoted(self.shared_library, orig.shared_library, disk)
        &&& all_promoted(self.object_file_data@, orig.object_file_data@, disk)
        &&& libraries_promoted(self.link_libraries@, orig.link_libraries@, disk)
        &&& opt_all_promoted(self.license_texts, orig.license_texts, disk)
    }

    pub fn to_memory(&self, disk: &FileSnapshot) -> (r: Result<Self, ResourceError>)
        ensures
            r is Ok <==> self.resolvable(*disk),
            r matches Ok(m) ==> m.is_memory_copy_of(self, *disk),
    {
        let shared_library = opt_to_memory(&self.shared_library, disk)?;
        let object_file_data = locations_to_memory(&self.object_file_data, disk)?;
        let link_libraries = libraries_to_memory(&self.link_libraries, disk)?;
        let license_texts = match &self.license_texts {
            Some(texts) => Some(locations_to_memory(texts, disk)?),
            None => None,
        };
        Ok(Self {
            name: self.name.clone(),
            init_fn: clone_opt_string(&self.init_fn),
            extension_file_suffix: self.extension_file_suffix.clone(),
            shared_library,
            object_file_data,
            is_package: self.is_package,
            link_libraries,
            is_stdlib: self.is_stdlib,
            builtin_default: self.builtin_default,
            required: self.required,
            variant: clone_opt_string(&self.variant),
            licenses: clone_opt_strings(&self.licenses),
            license_texts,
            license_public_domain: self.license_public_domain,
        })
    }

    /// The file name (without parent components) this extension module
    /// should be realized with.
    pub fn file_name(&self) -> (r: String)
        ensures
            r@ == last_segment(self.name@) + self.extension_file_suffix@,
    {
        proof {
            lemma_rfind(self.name@, '.');
        }
        let n = self.name.as_str().unicode_len();
        let mut r = match rfind_char(self.name.as_str(), '.') {
            Some(idx) => String::from_str(self.name.as_str().substring_char(idx + 1, n)),
            None => self.name.clone(),
        };
        assert(self.name@.skip(0) =~= self.name@);
        assert(r@ =~= last_segment(self.name@));
        r.append(self.extension_file_suffix.as_str());
        r
    }

    /// Resolve the filesystem path for this extension module.
    pub fn resolve_path(&self, prefix: &str) -> (r: String)
        ensures
            r@ == extension_path(prefix@, self.name@, self.extension_file_suffix@),
    {
        proof {
            lemma_rfind(self.name@, '.');
        }
        let dir = match rfind_char(self.name.as_str(), '.') {
            Some(idx) => {
                let parent = self.name.as_str().substring_char(0, idx);
                assert(parent@ =~= parent_name(self.name@));
                join_path(prefix, slashed_name(parent).as_str())
            },
            None => String::from_str(prefix),
        };
        join_path(dir.as_str(), self.file_name().as_str())
    }

    /// Returns the part strings constituting the package name.
    pub fn package_parts(&self) -> (r: Vec<String>)
        ensures
            r.deep_view() == if is_dotted(self.name@) {
                split_on(parent_name(self.name@), '.')
            } else {
                Seq::<Seq<char>>::empty()
            },
    {
        proof {
            lemma_rfind(self.name@, '.');
        }
        match rfind_char(self.name.as_str(), '.') {
            Some(idx) => {
                let parent = self.name.as_str().substring_char(0, idx);
                assert(parent@ =~= parent_name(self.name@));
                split_on_char(parent, '.')
            },
            None => {
                let r: Vec<String> = Vec::new();
                assert(r.deep_view() =~= Seq::<Seq<char>>::empty());
                r
            },
        }
    }

    /// Whether the extension module requires additional libraries.
    pub fn requires_libraries(&self) -> (r: bool)
        ensures
            r == (self.link_libraries.len() > 0),
    {
        !self.link_libraries.is_empty()
    }

    /// Whether the extension module is minimally required for a Python
    /// interpreter: a standard library module that is built into libpython
    /// or is needed to initialize the interpreter.
    pub fn is_minimally_required(&self) -> (r: bool)
        ensures
            r == (self.is_stdlib && (self.builtin_default || self.required)),
    {
        self.is_stdlib && (self.builtin_default || self.required)
    }
}

/// Whether extension module `e` is the variant labelled `label`.
pub open spec fn has_variant(e: PythonExtensionModule, label: Seq<char>) -> bool {
    opt_str(e.variant) == Some(label)
}

/// The first position at or after `from` of `exts` whose module is the
/// variant labelled `label`, or -1 when there is none.
pub open spec fn first_with_variant(exts: Seq<PythonExtensionModule>, label: Seq<char>, from: int) -> int
    decreases exts.len() - from,
{
    if from < 0 || from >= exts.len() {
        -1
    } else if has_variant(exts[from], label) {
        from
    } else {
        first_with_variant(exts, label, from + 1)
    }
}

/// The variant label that `preferences` asks for module `name`: the value
/// of the first pair whose key is `name`.
pub open spec fn preferred_variant(preferences: Seq<(String, String)>, name: Seq<char>) -> Option<Seq<char>>
    decreases preferences.len(),
{
    if preferences.len() == 0 {
        None
    } else if preferences[0].0@ == name {
        Some(preferences[0].1@)
    } else {
        preferred_variant(preferences.skip(1), name)
    }
}

/// The position of the variant chosen from `exts` under `preferences`:
/// the first variant carrying the label that `preferences` asks for the
/// default variant's name, else the default variant.
pub open spec fn chosen_variant_index(exts: Seq<PythonExtensionModule>, preferences: Seq<(String, String)>) -> int {
    let wanted = preferred_variant(preferences, exts[0].name@);
    if wanted is Some && first_with_variant(exts, wanted->Some_0, 0) >= 0 {
        first_with_variant(exts, wanted->Some_0, 0)
    } else {
        0
    }
}

/// The label that `preferences` asks for module `name`.
fn find_preference<'a>(preferences: &'a Vec<(String, String)>, name: &String) -> (r: Option<&'a String>)
    ensures
        match r {
            Some(l) => preferred_variant(preferences@, name@) == Some(l@),
            None => preferred_variant(preferences@, name@) is None,
        },
{
    assert(preferences@.skip(0) =~= preferences@);
    for i in 0..preferences.len()
        invariant
            preferred_variant(preferences@.skip(i as int), name@) == preferred_variant(preferences@, name@),
    {
        assert(preferences@.skip(i as int)[0] == preferences@[i as int]);
        assert(preferences@.skip(i as int).skip(1) =~= preferences@.skip(i + 1));
        if preferences[i].0 == *name {
            return Some(&preferences[i].1);
        }
    }
    assert(preferences@.skip(0) =~= preferences@);
    None
}

/// Represents a collection of variants for a given Python extension module.
#[derive(Clone, Debug)]
pub struct PythonExtensionModuleVariants {
    extensions: Vec<PythonExtensionModule>,
}

impl View for PythonExtensionModuleVariants {
    type V = Seq<PythonExtensionModule>;

    closed spec fn view(&self) -> Seq<PythonExtensionModule> {
        self.extensions@
    }
}

impl Default for PythonExtensionModuleVariants {
    fn default() -> (r: Self)
        ensures
            r@ == Seq::<PythonExtensionModule>::empty(),
    {
        Self { extensions: Vec::new() }
    }
}

impl PythonExtensionModuleVariants {
    /// Adds a variant; the first one added is the default.
    pub fn push(&mut self, em: PythonExtensionModule)
        ensures
            final(self)@ == old(self)@.push(em),
    {
        self.extensions.push(em);
    }

    pub fn is_empty(&self) -> (r: bool)
        ensures
            r == (self@.len() == 0),
    {
        self.extensions.is_empty()
    }

    /// The variants, in the order they were added.
    pub fn iter(&self) -> (r: &[PythonExtensionModule])
        ensures
            r@ == self@,
    {
        self.extensions.as_slice()
    }

    /// Obtains the default / first variant of an extension module.
    pub fn default_variant(&self) -> (r: Result<&PythonExtensionModule, ResourceError>)
        ensures
            match r {
                Ok(e) => self@.len() > 0 && *e == self@[0],
                Err(e) => self@.len() == 0 && e == ResourceError::EmptyVariantSet,
            },
    {
        if self.extensions.is_empty() {
            Err(ResourceError::EmptyVariantSet)
        } else {
            Ok(&self.extensions[0])
        }
    }

    /// Choose a variant given preferences, which map a module name to the
    /// label of the variant wanted for it.
    ///
    /// The default variant is chosen unless the preferences name it and
    /// some variant carries the label asked for; then the first such
    /// variant is chosen. A label that no variant carries is ignored.
    pub fn choose_variant(&self, preferences: &Vec<(String, String)>) -> (r: Result<
        &PythonExtensionModule,
        ResourceError,
    >)
        ensures
            match r {
                Ok(e) => self@.len() > 0 && *e == self@[chosen_variant_index(self@, preferences@)],
                Err(e) => self@.len() == 0 && e == ResourceError::EmptyVariantSet,
            },
    {
        let chosen = self.default_variant()?;
        if let Some(preferred) = find_preference(preferences, &chosen.name) {
            let ghost label = preferred@;
            for i in 0..self.extensions.len()
                invariant
                    self.extensions@.len() > 0,
                    preferred_variant(preferences@, self.extensions@[0].name@) == Some(label),
                    preferred@ == label,
                    first_with_variant(self.extensions@, label, i as int) == first_with_variant(
                        self.extensions@,
                        label,
                        0,
                    ),
            {
                let matches = match &self.extensions[i].variant {
                    Some(v) => *v == *preferred,
                    None => false,
                };
                if matches {
                    return Ok(&self.extensions[i]);
                }
            }
        }
        Ok(chosen)
    }
}

/// Represents a Python .egg file.
#[derive(Clone, Debug, PartialEq)]
pub struct PythonEggFile {
    /// Content of the .egg file.
    pub data: DataLocation,
}

impl PythonEggFile {
    pub fn to_memory(&self, disk: &FileSnapshot) -> (r: Result<Self, ResourceError>)
        ensures
            r is Ok <==> self.data@.resolvable(*disk),
            r matches Ok(m) ==> m.data@.promotes(self.data@, *disk),
            r matches Err(e) ==> e == ResourceError::Io(self.data->Path_0),
    {
        Ok(Self { data: self.data.to_memory(disk)? })
    }
}

/// Represents a Python path extension, i.e. a .pth file.
#[derive(Clone, Debug, PartialEq)]
pub struct PythonPathExtension {
    /// Content of the .pth file.
    pub data: DataLocation,
}

impl PythonPathExtension {
    pub fn to_memory(&self, disk: &FileSnapshot) -> (r: Result<Self, ResourceError>)
        ensures
            r is Ok <==> self.data@.resolvable(*disk),
            r matches Ok(m) ==> m.data@.promotes(self.data@, *disk),
            r matches Err(e) ==> e == ResourceError::Io(self.data->Path_0),
    {
        Ok(Self { data: self.data.to_memory(disk)? })
    }
}

/// Represents a resource that can be read by Python somehow.
#[derive(Clone, Debug, PartialEq)]
pub enum PythonResource {
    /// A module defined by source code.
    ModuleSource(PythonModuleSource),
    /// A module defined by a request to generate bytecode from source.
    ModuleBytecodeRequest(PythonModuleBytecodeFromSource),
    /// A module defined by existing bytecode.
    ModuleBytecode(PythonModuleBytecode),
    /// A non-module resource file.
    Resource(PythonPackageResource),
    /// A file in a Python package distribution metadata collection.
    DistributionResource(PythonPackageDistributionResource),
    /// An extension module that is represented by a dynamic library.
    ExtensionModuleDynamicLibrary(PythonExtensionModule),
    /// An extension module that was built from source and can be statically linked.
    ExtensionModuleStaticallyLinked(PythonExtensionModule),
    /// A self-contained Python egg.
    EggFile(PythonEggFile),
    /// A path extension.
    PathExtension(PythonPathExtension),
}

impl PythonResource {
    /// The fully qualified name of this resource; empty for eggs and path
    /// extensions, which have none.
    pub open spec fn spec_full_name(&self) -> Seq<char> {
        match self {
            PythonResource::ModuleSource(m) => m.name@,
            PythonResource::ModuleBytecodeRequest(m) => m.name@,
            PythonResource::ModuleBytecode(m) => m.name@,
            PythonResource::Resource(r) => r.leaf_package@ + "."@ + r.relative_name@,
            PythonResource::DistributionResource(r) => r.package@ + ":"@ + r.name@,
            PythonResource::ExtensionModuleDynamicLibrary(e) => e.name@,
            PythonResource::ExtensionModuleStaticallyLinked(e) => e.name@,
            PythonResource::EggFile(_) => Seq::empty(),
            PythonResource::PathExtension(_) => Seq::empty(),
        }
    }

    /// The name by which this resource's package membership is judged;
    /// `None` for eggs and path extensions.
    pub open spec fn membership_name(&self) -> Option<Seq<char>> {
        match self {
            PythonResource::ModuleSource(m) => Some(m.name@),
            PythonResource::ModuleBytecodeRequest(m) => Some(m.name@),
            PythonResource::ModuleBytecode(m) => Some(m.name@),
            PythonResource::Resource(r) => Some(r.leaf_package@),
            PythonResource::DistributionResource(r) => Some(r.package@),
            PythonResource::ExtensionModuleDynamicLibrary(e) => Some(e.name@),
            PythonResource::ExtensionModuleStaticallyLinked(e) => Some(e.name@),
            PythonResource::EggFile(_) => None,
            PythonResource::PathExtension(_) => None,
        }
    }

    /// Whether this resource belongs to one of `packages`.
    pub open spec fn spec_in_packages(&self, packages: Seq<String>) -> bool {
        match self.membership_name() {
            Some(name) => exists|k: int| 0 <= k < packages.len() && is_within_package(name, #[trigger] packages[k]@),
            None => false,
        }
    }

    /// Whether every piece of data of this resource can be resolved under
    /// `disk`.
    pub open spec fn resolvable(&self, disk: FileSnapshot) -> bool {
        match self {
            PythonResource::ModuleSource(m) => m.resolvable(disk),
            PythonResource::ModuleBytecodeRequest(m) => m.resolvable(disk),
            PythonResource::ModuleBytecode(m) => m.resolvable(disk),
            PythonResource::Resource(r) => r.resolvable(disk),
            PythonResource::DistributionResource(r) => r.resolvable(disk),
            PythonResource::ExtensionModuleDynamicLibrary(e) => e.resolvable(disk),
            PythonResource::ExtensionModuleStaticallyLinked(e) => e.resolvable(disk),
            PythonResource::EggFile(e) => e.data@.resolvable(disk),
            PythonResource::PathExtension(e) => e.data@.resolvable(disk),
        }
    }

    /// Whether `self` is `orig`, of the same kind, with all of its data
    /// held in memory as read under `disk`.
    pub open spec fn is_memory_copy_of(&self, orig: &Self, disk: FileSnapshot) -> bool {
        match (self, orig) {
            (PythonResource::ModuleSource(m), PythonResource::ModuleSource(o)) => m.is_memory_copy_of(&o, disk),
            (PythonResource::ModuleBytecodeRequest(m), PythonResource::ModuleBytecodeRequest(o)) => m.is_memory_copy_of(&o, disk),
            (PythonResource::ModuleBytecode(m), PythonResource::ModuleBytecode(o)) => m.is_memory_copy_of(&o, disk),
            (PythonResource::Resource(m), PythonResource::Resource(o)) => m.is_memory_copy_of(&o, disk),
            (PythonResource::DistributionResource(m), PythonResource::DistributionResource(o)) => m.is_memory_copy_of(&o, disk),
            (PythonResource::ExtensionModuleDynamicLibrary(m), PythonResource::ExtensionModuleDynamicLibrary(o)) => m.is_memory_copy_of(&o, disk),
            (PythonResource::ExtensionModuleStaticallyLinked(m), PythonResource::ExtensionModuleStaticallyLinked(o)) => m.is_memory_copy_of(&o, disk),
            (PythonResource::EggFile(m), PythonResource::EggFile(o)) => m.data@.promotes(o.data@, disk),
            (PythonResource::PathExtension(m), PythonResource::PathExtension(o)) => m.data@.promotes(o.data@, disk),
            _ => false,
        }
    }

    /// Resolves the fully qualified resource name.
    pub fn full_name(&self) -> (r: String)
        ensures
            r@ == self.spec_full_name(),
    {
        match self {
            PythonResource::ModuleSource(m) => m.name.clone(),
            PythonResource::ModuleBytecode(m) => m.name.clone(),
            PythonResource::ModuleBytecodeRequest(m) => m.name.clone(),
            PythonResource::Resource(resource) => {
                let mut r = resource.leaf_package.clone();
                r.append(".");
                r.append(resource.relative_name.as_str());
                r
            },
            PythonResource::DistributionResource(resource) => {
                let mut r = resource.package.clone();
                r.append(":");
                r.append(resource.name.as_str());
                r
            },
            PythonResource::ExtensionModuleDynamicLibrary(em) => em.name.clone(),
            PythonResource::ExtensionModuleStaticallyLinked(em) => em.name.clone(),
            PythonResource::EggFile(_) => String::new(),
            PythonResource::PathExtension(_) => String::new(),
        }
    }

    /// Whether this resource is one of `packages` or lies inside one of
    /// them. A resource whose name equals a package counts even when it is
    /// not itself a package.
    pub fn is_in_packages(&self, packages: &[String]) -> (r: bool)
        ensures
            r == self.spec_in_packages(packages@),
    {
        let name = match self {
            PythonResource::ModuleSource(m) => &m.name,
            PythonResource::ModuleBytecode(m) => &m.name,
            PythonResource::ModuleBytecodeRequest(m) => &m.name,
            PythonResource::Resource(resource) => &resource.leaf_package,
            PythonResource::DistributionResource(resource) => &resource.package,
            PythonResource::ExtensionModuleDynamicLibrary(em) => &em.name,
            PythonResource::ExtensionModuleStaticallyLinked(em) => &em.name,
            PythonResource::EggFile(_) => return false,
            PythonResource::PathExtension(_) => return false,
        };
        for i in 0..packages.len()
            invariant
                self.membership_name() == Some(name@),
                forall|k: int| 0 <= k < i ==> !is_within_package(name@, #[trigger] packages@[k]@),
        {
            if is_name_within_package(name, &packages[i]) {
                return true;
            }
        }
        false
    }

    /// Create a new instance that is guaranteed to be backed by memory.
    pub fn to_memory(&self, disk: &FileSnapshot) -> (r: Result<Self, ResourceError>)
        ensures
            r is Ok <==> self.resolvable(*disk),
            r matches Ok(m) ==> m.is_memory_copy_of(self, *disk),
    {
        Ok(match self {
            PythonResource::ModuleSource(m) => PythonResource::ModuleSource(m.to_memory(disk)?),
            PythonResource::ModuleBytecode(m) => PythonResource::ModuleBytecode(m.to_memory(disk)?),
            PythonResource::ModuleBytecodeRequest(m) => PythonResource::ModuleBytecodeRequest(m.to_memory(disk)?),
            PythonResource::Resource(r) => PythonResource::Resource(r.to_memory(disk)?),
            PythonResource::DistributionResource(r) => PythonResource::DistributionResource(r.to_memory(disk)?),
            PythonResource::ExtensionModuleDynamicLibrary(m) => PythonResource::ExtensionModuleDynamicLibrary(m.to_memory(disk)?),
            PythonResource::ExtensionModuleStaticallyLinked(m) => PythonResource::ExtensionModuleStaticallyLinked(m.to_memory(disk)?),
            PythonResource::EggFile(e) => PythonResource::EggFile(e.to_memory(disk)?),
            PythonResource::PathExtension(e) => PythonResource::PathExtension(e.to_memory(disk)?),
        })
    }
}

impl From<PythonModuleSource> for PythonResource {
    fn from(v: PythonModuleSource) -> (r: Self) {
        PythonResource::ModuleSource(v)
    }
}

impl vstd::std_specs::convert::FromSpecImpl<PythonModuleSource> for PythonResource {
    open spec fn obeys_from_spec() -> bool {
        true
    }

    open spec fn from_spec(v: PythonModuleSource) -> Self {
        PythonResource::ModuleSource(v)
    }
}

impl From<PythonModuleBytecodeFromSource> for PythonResource {
    fn from(v: PythonModuleBytecodeFromSource) -> (r: Self) {
        PythonResource::ModuleBytecodeRequest(v)
    }
}

impl vstd::std_specs::convert::FromSpecImpl<PythonModuleBytecodeFromSource> for PythonResource {
    open spec fn obeys_from_spec() -> bool {
        true
    }

    open spec fn from_spec(v: PythonModuleBytecodeFromSource) -> Self {
        PythonResource::ModuleBytecodeRequest(v)
    }
}

impl From<PythonModuleBytecode> for PythonResource {
    fn from(v: PythonModuleBytecode) -> (r: Self) {
        PythonResource::ModuleBytecode(v)
    }
}

impl vstd::std_specs::convert::FromSpecImpl<PythonModuleBytecode> for PythonResource {
    open spec fn obeys_from_spec() -> bool {
        true
    }

    open spec fn from_spec(v: PythonModuleBytecode) -> Self {
        PythonResource::ModuleBytecode(v)
    }
}

impl From<PythonPackageResource> for PythonResource {
    fn from(v: PythonPackageResource) -> (r: Self) {
        PythonResource::Resource(v)
    }
}

impl vstd::std_specs::convert::FromSpecImpl<PythonPackageResource> for PythonResource {
    open spec fn obeys_from_spec() -> bool {
        true
    }

    open spec fn from_spec(v: PythonPackageResource) -> Self {
        PythonResource::Resource(v)
    }
}

impl From<PythonPackageDistributionResource> for PythonResource {
    fn from(v: PythonPackageDistributionResource) -> (r: Self) {
        PythonResource::DistributionResource(v)
    }
}

impl vstd::std_specs::convert::FromSpecImpl<PythonPackageDistributionResource> for PythonResource {
    open spec fn obeys_from_spec() -> bool {
        true
    }

    open spec fn from_spec(v: PythonPackageDistributionResource) -> Self {
        PythonResource::DistributionResource(v)
    }
}

impl From<PythonEggFile> for PythonResource {
    fn from(v: PythonEggFile) -> (r: Self) {
        PythonResource::EggFile(v)
    }
}

impl vstd::std_specs::convert::FromSpecImpl<PythonEggFile> for PythonResource {
    open spec fn obeys_from_spec() -> bool {
        true
    }

    open spec fn from_spec(v: PythonEggFile) -> Self {
        PythonResource::EggFile(v)
    }
}

impl From<PythonPathExtension> for PythonResource {
    fn from(v: PythonPathExtension) -> (r: Self) {
        PythonResource::PathExtension(v)
    }
}

impl vstd::std_specs::convert::FromSpecImpl<PythonPathExtension> for PythonResource {
    open spec fn obeys_from_spec() -> bool {
        true
    }

    open spec fn from_spec(v: PythonPathExtension) -> Self {
        PythonResource::PathExtension(v)
    }
}

} // verus!
