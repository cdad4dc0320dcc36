//! Accumulating resources for a binary that embeds Python, and turning them
//! into what a native build step consumes.

use vstd::prelude::*;

use crate::location::ResourceError;
use crate::naming::{contains_string, split_on, split_on_char};
use crate::resource::{
    opt_str, PythonExtensionModule, PythonModuleBytecodeFromSource, PythonModuleSource,
    PythonPackageDistributionResource, PythonPackageResource, PythonResource,
};
use vstd::utf8::encode_utf8;

verus! {

/// How a binary should link against libpython.
#[derive(Clone, Copy, Debug, PartialEq, Eq, Structural)]
pub enum LibpythonLinkMode {
    /// Libpython will be statically linked into the binary.
    Static,
    /// The binary will dynamically link against libpython.
    Dynamic,
}

/// Where a resource is placed in the produced binary.
#[derive(Clone, Debug, PartialEq, Eq)]
pub enum ConcreteResourceLocation {
    /// Embedded in the binary and loaded from memory.
    InMemory,
    /// Installed as a file under this path prefix, relative to the binary.
    RelativePath(String),
    /// Linked into the runtime library itself (extension modules only).
    BuiltIn,
}

/// The placement policy a builder applies to resources added without an
/// explicit placement.
#[derive(Clone, Debug, PartialEq, Eq)]
pub struct PythonPackagingPolicy {
    /// Where resources go when no placement is asked for.
    pub resources_location: ConcreteResourceLocation,
    /// Whether the produced binary can load a shared library from memory.
    pub allow_in_memory_shared_library_loading: bool,
}

/// A resource as accumulated by a builder, with the placement chosen for it.
#[derive(Clone, Debug, PartialEq)]
pub struct PrePackagedResource {
    pub resource: PythonResource,
    pub location: ConcreteResourceLocation,
}

/// What a builder is configured with.
#[derive(Clone, Debug, PartialEq)]
pub struct BinaryBuilderConfig {
    /// The name of the binary.
    pub exe_name: String,
    /// How the binary links against libpython.
    pub link_mode: LibpythonLinkMode,
    /// The cache tag of the interpreter's bytecode, e.g. `cpython-37`.
    pub cache_tag: String,
    /// The placement policy.
    pub policy: PythonPackagingPolicy,
    /// Static library of the interpreter, linked in when linking statically.
    pub libpython_data: Vec<u8>,
    /// Path of the existing shared libpython, linked against when linking
    /// dynamically.
    pub libpython_path: String,
    /// Static library holding an alternate table of built-in extension
    /// modules, linked in when linking statically.
    pub config_table_data: Option<Vec<u8>>,
    /// Whether the binary uses the jemalloc allocator.
    pub use_jemalloc: bool,
    /// Rust target triple of the machine doing the build.
    pub host_triple: String,
    /// Rust target triple of the machine the binary runs on.
    pub target_triple: String,
}

/// The placement of a resource other than an extension module, when
/// `requested` is asked for: the policy's default when nothing is asked;
/// `None` when the placement is impossible.
pub open spec fn resource_placement(
    policy: PythonPackagingPolicy,
    requested: Option<ConcreteResourceLocation>,
) -> Option<ConcreteResourceLocation> {
    let loc = match requested {
        Some(l) => l,
        None => policy.resources_location,
    };
    if loc is BuiltIn {
        None
    } else {
        Some(loc)
    }
}

/// The placement of extension module `ext` when `requested` is asked for;
/// `None` when the placement is impossible.
///
/// A module compiled into the runtime by default stays there when
/// `honor_builtin` holds. A statically linked runtime cannot load a shared
/// library: a module with object files is linked in instead, and one
/// without is refused. A dynamically linked runtime loads the module's
/// shared library, from memory only where the policy allows it.
pub open spec fn extension_placement(
    config: BinaryBuilderConfig,
    ext: PythonExtensionModule,
    requested: Option<ConcreteResourceLocation>,
    honor_builtin: bool,
) -> Option<ConcreteResourceLocation> {
    let linkable = ext.object_file_data@.len() > 0;
    let is_static = config.link_mode == LibpythonLinkMode::Static;
    if honor_builtin && ext.builtin_default {
        Some(ConcreteResourceLocation::BuiltIn)
    } else {
        let loc = match requested {
            Some(l) => l,
            None => if is_static && linkable {
                ConcreteResourceLocation::BuiltIn
            } else {
                config.policy.resources_location
            },
        };
        if is_static || loc is BuiltIn {
            if is_static && linkable {
                Some(ConcreteResourceLocation::BuiltIn)
            } else {
                None
            }
        } else if ext.shared_library is None {
            None
        } else if loc is InMemory && !config.policy.allow_in_memory_shared_library_loading {
            None
        } else {
            Some(loc)
        }
    }
}

/// The resource kind under which `ext` is recorded once placed at `loc`.
pub open spec fn placed_extension(ext: PythonExtensionModule, loc: ConcreteResourceLocation) -> PythonResource {
    if loc is BuiltIn {
        PythonResource::ExtensionModuleStaticallyLinked(ext)
    } else {
        PythonResource::ExtensionModuleDynamicLibrary(ext)
    }
}

/// Whether adding `resource`, placed at `placement`, took `entries` to
/// `new_entries` and returned `r`: recorded under its name when a
/// placement exists, else refused with nothing changed.
pub open spec fn adds_as_placed(
    entries: Seq<(Seq<char>, PrePackagedResource)>,
    new_entries: Seq<(Seq<char>, PrePackagedResource)>,
    placement: Option<ConcreteResourceLocation>,
    resource: PythonResource,
    r: Result<(), ResourceError>,
) -> bool {
    match placement {
        Some(l) => {
            &&& r is Ok
            &&& new_entries == insert_entry(
                entries,
                resource.spec_full_name(),
                PrePackagedResource { resource, location: l },
            )
        },
        None => {
            &&& new_entries == entries
            &&& r matches Err(ResourceError::UnsupportedPlacement(n)) && n@ == resource.spec_full_name()
        },
    }
}

/// Position of the entry named `name` in `entries`, or -1.
pub open spec fn find_entry(entries: Seq<(Seq<char>, PrePackagedResource)>, name: Seq<char>) -> int
    decreases entries.len(),
{
    if entries.len() == 0 {
        -1
    } else if entries.last().0 == name {
        entries.len() - 1
    } else {
        find_entry(entries.drop_last(), name)
    }
}

/// `entries` after recording `value` under `name`: an entry of that name
/// is replaced in place, else the new entry goes last.
pub open spec fn insert_entry(
    entries: Seq<(Seq<char>, PrePackagedResource)>,
    name: Seq<char>,
    value: PrePackagedResource,
) -> Seq<(Seq<char>, PrePackagedResource)> {
    let k = find_entry(entries, name);
    if 0 <= k < entries.len() {
        entries.update(k, (name, value))
    } else {
        entries.push((name, value))
    }
}

/// Whether `name` is a line of one of `listings`.
pub open spec fn is_listed(listings: Seq<String>, name: Seq<char>) -> bool {
    exists|k: int| 0 <= k < listings.len() && split_on(#[trigger] listings[k]@, '\n').contains(name)
}

pub proof fn lemma_find_entry(entries: Seq<(Seq<char>, PrePackagedResource)>, name: Seq<char>)
    ensures
        -1 <= find_entry(entries, name) < entries.len(),
        find_entry(entries, name) >= 0 ==> entries[find_entry(entries, name)].0 == name,
        find_entry(entries, name) < 0 ==> forall|j: int| 0 <= j < entries.len() ==> entries[j].0 != name,
    decreases entries.len(),
{
    if entries.len() > 0 && entries.last().0 != name {
        lemma_find_entry(entries.drop_last(), name);
        assert forall|j: int| 0 <= j < entries.len() - 1 implies entries[j] == entries.drop_last()[j] by {}
    }
}

/// A copy of `l`.
pub fn copy_placement(l: &ConcreteResourceLocation) -> (r: ConcreteResourceLocation)
    ensures
        r == *l,
{
    match l {
        ConcreteResourceLocation::InMemory => ConcreteResourceLocation::InMemory,
        ConcreteResourceLocation::RelativePath(p) => ConcreteResourceLocation::RelativePath(p.clone()),
        ConcreteResourceLocation::BuiltIn => ConcreteResourceLocation::BuiltIn,
    }
}

/// Builds a binary that embeds a Python interpreter: accumulates resources
/// under a placement policy, then produces an embedding context.
pub struct StandalonePythonExecutableBuilder {
    config: BinaryBuilderConfig,
    resources: Vec<(String, PrePackagedResource)>,
}

impl StandalonePythonExecutableBuilder {
    /// The builder's configuration.
    pub closed spec fn spec_config(&self) -> BinaryBuilderConfig {
        self.config
    }

    /// The accumulated resources, by name, in the order first added.
    pub closed spec fn entries(&self) -> Seq<(Seq<char>, PrePackagedResource)> {
        self.resources@.map_values(|e: (String, PrePackagedResource)| (e.0@, e.1))
    }

    /// No name is accumulated twice, and each entry is named after its
    /// resource.
    pub closed spec fn wf(&self) -> bool {
        &&& forall|i: int, j: int|
            0 <= i < j < self.resources@.len() ==> #[trigger] self.resources@[i].0@
                != #[trigger] self.resources@[j].0@
        &&& forall|i: int|
            0 <= i < self.resources@.len() ==> (#[trigger] self.resources@[i]).0@
                == self.resources@[i].1.resource.spec_full_name()
    }

    /// A builder with nothing accumulated.
    pub fn new(config: BinaryBuilderConfig) -> (r: Self)
        ensures
            r.wf(),
            r.spec_config() == config,
            r.entries() == Seq::<(Seq<char>, PrePackagedResource)>::empty(),
    {
        let r = Self { config, resources: Vec::new() };
        assert(r.entries() =~= Seq::<(Seq<char>, PrePackagedResource)>::empty());
        r
    }

    /// The name of the binary.
    pub fn name(&self) -> (r: String)
        ensures
            r@ == self.spec_config().exe_name@,
    {
        self.config.exe_name.clone()
    }

    /// How the binary will link against libpython.
    pub fn libpython_link_mode(&self) -> (r: LibpythonLinkMode)
        ensures
            r == self.spec_config().link_mode,
    {
        self.config.link_mode
    }

    /// The cache tag to apply to Python bytecode modules.
    pub fn cache_tag(&self) -> (r: &str)
        ensures
            r@ == self.spec_config().cache_tag@,
    {
        self.config.cache_tag.as_str()
    }

    /// The placement policy of the builder.
    pub fn python_packaging_policy(&self) -> (r: &PythonPackagingPolicy)
        ensures
            *r == self.spec_config().policy,
    {
        &self.config.policy
    }

    /// Whether the binary requires the jemalloc library.
    pub fn requires_jemalloc(&self) -> (r: bool)
        ensures
            r == self.spec_config().use_jemalloc,
    {
        self.config.use_jemalloc
    }

    /// The accumulated resources, in the order first added.
    pub fn iter_resources(&self) -> (r: &[(String, PrePackagedResource)])
        ensures
            r@.map_values(|e: (String, PrePackagedResource)| (e.0@, e.1)) == self.entries(),
    {
        self.resources.as_slice()
    }

    /// Position of the entry named `name`.
    fn position_of(&self, name: &String) -> (r: Option<usize>)
        ensures
            match r {
                Some(k) => k == find_entry(self.entries(), name@),
                None => find_entry(self.entries(), name@) == -1,
            },
    {
        let ghost entries = self.entries();
        let mut i: usize = self.resources.len();
        assert(entries.take(i as int) =~= entries);
        while i > 0
            invariant
                i <= self.resources@.len(),
                entries == self.entries(),
                find_entry(entries.take(i as int), name@) == find_entry(entries, name@),
            decreases i,
        {
            assert(entries.take(i as int).drop_last() =~= entries.take(i - 1));
            assert(entries.take(i as int).last() == entries[i - 1]);
            if self.resources[i - 1].0 == *name {
                return Some(i - 1);
            }
            i = i - 1;
        }
        None
    }

    /// Records `resource` at `location`, replacing an entry of the same
    /// name.
    fn insert(&mut self, resource: PythonResource, location: ConcreteResourceLocation)
        requires
            old(self).wf(),
        ensures
            final(self).wf(),
            final(self).spec_config() == old(self).spec_config(),
            final(self).entries() == insert_entry(
                old(self).entries(),
                resource.spec_full_name(),
                PrePackagedResource { resource, location },
            ),
    {
        let name = resource.full_name();
        let ghost entries = self.entries();
        let ghost value = PrePackagedResource { resource, location };
        let pos = self.position_of(&name);
        proof {
            lemma_find_entry(entries, name@);
        }
        if let Some(k) = pos {
            self.resources.set(k, (name, PrePackagedResource { resource, location }));
            assert(self.entries() =~= entries.update(k as int, (name@, value)));
        } else {
            assert(find_entry(entries, name@) == -1);
            let ghost before = self.resources@;
            self.resources.push((name, PrePackagedResource { resource, location }));
            assert(self.entries() =~= entries.push((name@, value)));
            assert forall|j: int| 0 <= j < before.len() implies #[trigger] self.resources@[j].0@ != name@ by {
                assert(entries[j].0 == before[j].0@);
            }
        }
    }

    /// Records a resource other than an extension module, at `location` or
    /// where the policy puts it.
    fn add_resource(&mut self, resource: PythonResource, location: Option<ConcreteResourceLocation>) -> (r:
        Result<(), ResourceError>)
        requires
            old(self).wf(),
        ensures
            final(self).wf(),
            final(self).spec_config() == old(self).spec_config(),
            adds_as_placed(
                old(self).entries(),
                final(self).entries(),
                resource_placement(old(self).spec_config().policy, location),
                resource,
                r,
            ),
    {
        let loc = match location {
            Some(l) => l,
            None => copy_placement(&self.config.policy.resources_location),
        };
        match loc {
            ConcreteResourceLocation::BuiltIn => Err(
                ResourceError::UnsupportedPlacement(resource.full_name()),
            ),
            _ => {
                self.insert(resource, loc);
                Ok(())
            },
        }
    }
}

/// Whether an accumulated entry is kept by a filter on `listings`.
pub open spec fn listed_entry(listings: Seq<String>) -> spec_fn((Seq<char>, PrePackagedResource)) -> bool {
    |e: (Seq<char>, PrePackagedResource)| is_listed(listings, e.0)
}

/// The newline-terminated UTF-8 names of `names`, in order.
pub open spec fn names_listing(names: Seq<Seq<char>>) -> Seq<u8>
    decreases names.len(),
{
    if names.len() == 0 {
        Seq::empty()
    } else {
        names_listing(names.drop_last()) + encode_utf8(names.last()) + seq![10u8]
    }
}

/// The tag that stands for the kind of `r` in packed resources.
pub open spec fn kind_tag(r: PythonResource) -> u8 {
    match r {
        PythonResource::ModuleSource(_) => 0,
        PythonResource::ModuleBytecodeRequest(_) => 1,
        PythonResource::ModuleBytecode(_) => 2,
        PythonResource::Resource(_) => 3,
        PythonResource::DistributionResource(_) => 4,
        PythonResource::ExtensionModuleDynamicLibrary(_) => 5,
        PythonResource::ExtensionModuleStaticallyLinked(_) => 6,
        PythonResource::EggFile(_) => 7,
        PythonResource::PathExtension(_) => 8,
    }
}

/// The tag that stands for placement `l` in packed resources.
pub open spec fn placement_tag(l: ConcreteResourceLocation) -> u8 {
    match l {
        ConcreteResourceLocation::InMemory => 0,
        ConcreteResourceLocation::RelativePath(_) => 1,
        ConcreteResourceLocation::BuiltIn => 2,
    }
}

/// The flags of `r` as one byte: 1 for a package, 2 for the standard
/// library, 4 for test code.
pub open spec fn flags_byte(r: PythonResource) -> u8 {
    let (is_package, is_stdlib, is_test) = match r {
        PythonResource::ModuleSource(m) => (m.is_package, m.is_stdlib, m.is_test),
        PythonResource::ModuleBytecodeRequest(m) => (m.is_package, m.is_stdlib, m.is_test),
        PythonResource::ModuleBytecode(m) => (m.is_package, m.is_stdlib, m.is_test),
        PythonResource::Resource(p) => (false, p.is_stdlib, p.is_test),
        PythonResource::DistributionResource(_) => (false, false, false),
        PythonResource::ExtensionModuleDynamicLibrary(e) => (e.is_package, e.is_stdlib, false),
        PythonResource::ExtensionModuleStaticallyLinked(e) => (e.is_package, e.is_stdlib, false),
        PythonResource::EggFile(_) => (false, false, false),
        PythonResource::PathExtension(_) => (false, false, false),
    };
    ((if is_package { 1int } else { 0int }) + (if is_stdlib { 2int } else { 0int }) + (if is_test { 4int } else { 0int })) as u8
}

/// One packed entry: kind, placement and flags bytes, the name ended by a
/// zero byte and, for a relative path, the path prefix ended by a zero byte.
pub open spec fn packed_entry(name: Seq<char>, p: PrePackagedResource) -> Seq<u8> {
    seq![kind_tag(p.resource), placement_tag(p.location), flags_byte(p.resource)] + encode_utf8(name)
        + seq![0u8] + match p.location {
        ConcreteResourceLocation::RelativePath(prefix) => encode_utf8(prefix@) + seq![0u8],
        _ => Seq::empty(),
    }
}

/// The packed entries of `entries`, in order.
pub open spec fn packed_entries(entries: Seq<(Seq<char>, PrePackagedResource)>) -> Seq<u8>
    decreases entries.len(),
{
    if entries.len() == 0 {
        Seq::empty()
    } else {
        packed_entries(entries.drop_last()) + packed_entry(entries.last().0, entries.last().1)
    }
}

/// Appends `data` to `out`.
fn extend_bytes(out: &mut Vec<u8>, data: &[u8])
    ensures
        final(out)@ == old(out)@ + data@,
{
    let ghost start = out@;
    for i in 0..data.len()
        invariant
            out@ =~= start + data@.take(i as int),
    {
        out.push(data[i]);
    }
    assert(data@.take(data@.len() as int) =~= data@);
}

/// Describes how to link a binary against Python.
#[derive(Clone, Debug, PartialEq)]
pub struct PythonLinkingInfo {
    /// File name of a `pythonXY` library to link against.
    pub libpythonxy_filename: String,
    /// The contents of `libpythonxy_filename`.
    pub libpythonxy_data: Vec<u8>,
    /// Path to an existing `libpython` to link against. If present, this is
    /// the actual library containing Python symbols and `libpythonXY` is
    /// a placeholder.
    pub libpython_filename: Option<String>,
    /// File name of a library containing an alternate `config.c`.
    pub libpyembeddedconfig_filename: Option<String>,
    /// The contents of `libpyembeddedconfig_filename`.
    pub libpyembeddedconfig_data: Option<Vec<u8>>,
    /// Lines that need to be emitted from a Cargo build script.
    pub cargo_metadata: Vec<String>,
}

/// Holds filesystem paths to resources required to build a binary
/// embedding Python.
#[derive(Clone, Debug, PartialEq)]
pub struct EmbeddedPythonPaths {
    /// File containing a list of module names.
    pub module_names: String,
    /// File containing embedded resources data.
    pub embedded_resources: String,
    /// Path to library containing libpython.
    pub libpython: String,
    /// Path to a library containing an alternate compiled config.c file.
    pub libpyembeddedconfig: Option<String>,
    /// Path to the generated interpreter configuration.
    pub config_rs: String,
    /// Path to a file containing lines needed to be emitted by a Cargo build
    /// script.
    pub cargo_metadata: String,
}

/// Holds context necessary to embed Python in a binary.
#[derive(Clone, Debug, PartialEq)]
pub struct EmbeddedPythonContext {
    /// Information on how to link against Python.
    pub linking_info: PythonLinkingInfo,
    /// Newline delimited list of module names in resources.
    pub module_names: Vec<u8>,
    /// Python resources to embed in the binary.
    pub resources: Vec<u8>,
    /// Rust target triple for the host we are running on.
    pub host_triple: String,
    /// Rust target triple for the target we are building for.
    pub target_triple: String,
}

/// The build-script lines to emit: those of linking, then where the
/// libraries were written, then where the configuration was written.
pub open spec fn metadata_lines(upstream: Seq<Seq<char>>, dest_dir: Seq<char>, config_rs: Seq<char>) -> Seq<Seq<char>> {
    upstream.push("cargo:rustc-link-search=native="@ + dest_dir).push("cargo:default-python-config-rs="@ + config_rs)
}

/// The build-script lines to emit for files written to `dest_dir`, with
/// the configuration at `config_rs`.
pub fn cargo_metadata_lines(upstream: &Vec<String>, dest_dir: &str, config_rs: &str) -> (r: Vec<String>)
    ensures
        r.deep_view() == metadata_lines(upstream.deep_view(), dest_dir@, config_rs@),
{
    let mut lines: Vec<String> = Vec::new();
    for i in 0..upstream.len()
        invariant
            lines.deep_view() =~= upstream.deep_view().take(i as int),
    {
        let ghost before = lines.deep_view();
        lines.push(upstream[i].clone());
        assert(lines.deep_view() =~= before.push(upstream.deep_view()[i as int]));
    }
    assert(upstream.deep_view().take(upstream.len() as int) =~= upstream.deep_view());
    let ghost before = lines.deep_view();
    let mut search = String::from_str("cargo:rustc-link-search=native=");
    search.append(dest_dir);
    lines.push(search);
    let mut config = String::from_str("cargo:default-python-config-rs=");
    config.append(config_rs);
    lines.push(config);
    assert(lines.deep_view() =~= metadata_lines(before, dest_dir@, config_rs@));
    lines
}

/// A copy of optional bytes.
fn clone_opt_bytes(o: &Option<Vec<u8>>) -> (r: Option<Vec<u8>>)
    ensures
        match (r, *o) {
            (Some(a), Some(b)) => a@ == b@,
            (None, None) => true,
            _ => false,
        },
{
    match o {
        Some(d) => Some(d.clone()),
        None => None,
    }
}

impl StandalonePythonExecutableBuilder {
    /// Whether `info` links as this builder's configuration asks.
    ///
    /// Linking statically embeds the interpreter's static library under a
    /// placeholder name, with the alternate table of built-in extension
    /// modules when the configuration has one. Linking dynamically embeds
    /// an empty placeholder and links against the existing libpython.
    pub open spec fn links_as_configured(&self, info: PythonLinkingInfo) -> bool {
        let config = self.spec_config();
        &&& info.libpythonxy_filename@ == "libpythonXY.a"@
        &&& match config.link_mode {
            LibpythonLinkMode::Static => {
                &&& info.libpythonxy_data@ == config.libpython_data@
                &&& info.libpython_filename is None
                &&& match config.config_table_data {
                    Some(table) => {
                        &&& opt_str(info.libpyembeddedconfig_filename) == Some("libpyembeddedconfig.a"@)
                        &&& info.libpyembeddedconfig_data matches Some(d) && d@ == table@
                        &&& info.cargo_metadata.deep_view() == seq![
                            "cargo:rustc-link-lib=static=pythonXY"@,
                            "cargo:rustc-link-lib=static=pyembeddedconfig"@,
                        ]
                    },
                    None => {
                        &&& info.libpyembeddedconfig_filename is None
                        &&& info.libpyembeddedconfig_data is None
                        &&& info.cargo_metadata.deep_view() == seq!["cargo:rustc-link-lib=static=pythonXY"@]
                    },
                }
            },
            LibpythonLinkMode::Dynamic => {
                &&& info.libpythonxy_data@.len() == 0
                &&& opt_str(info.libpython_filename) == Some(config.libpython_path@)
                &&& info.libpyembeddedconfig_filename is None
                &&& info.libpyembeddedconfig_data is None
                &&& info.cargo_metadata.deep_view() == seq![
                    "cargo:rustc-link-lib=static=pythonXY"@,
                    "cargo:rustc-link-arg="@ + config.libpython_path@,
                ]
            },
        }
    }

    /// How the binary links against Python.
    pub fn linking_info(&self) -> (r: PythonLinkingInfo)
        ensures
            self.links_as_configured(r),
    {
        let mut cargo_metadata: Vec<String> = Vec::new();
        cargo_metadata.push(String::from_str("cargo:rustc-link-lib=static=pythonXY"));
        match self.config.link_mode {
            LibpythonLinkMode::Static => {
                let (name, data) = match &self.config.config_table_data {
                    Some(table) => {
                        cargo_metadata.push(String::from_str("cargo:rustc-link-lib=static=pyembeddedconfig"));
                        (Some(String::from_str("libpyembeddedconfig.a")), Some(table.clone()))
                    },
                    None => (None, None),
                };
                let r = PythonLinkingInfo {
                    libpythonxy_filename: String::from_str("libpythonXY.a"),
                    libpythonxy_data: self.config.libpython_data.clone(),
                    libpython_filename: None,
                    libpyembeddedconfig_filename: name,
                    libpyembeddedconfig_data: data,
                    cargo_metadata,
                };
                assert(r.cargo_metadata.deep_view() =~= if self.config.config_table_data is Some {
                    seq!["cargo:rustc-link-lib=static=pythonXY"@, "cargo:rustc-link-lib=static=pyembeddedconfig"@]
                } else {
                    seq!["cargo:rustc-link-lib=static=pythonXY"@]
                });
                r
            },
            LibpythonLinkMode::Dynamic => {
                let mut arg = String::from_str("cargo:rustc-link-arg=");
                arg.append(self.config.libpython_path.as_str());
                cargo_metadata.push(arg);
                let r = PythonLinkingInfo {
                    libpythonxy_filename: String::from_str("libpythonXY.a"),
                    libpythonxy_data: Vec::new(),
                    libpython_filename: Some(self.config.libpython_path.clone()),
                    libpyembeddedconfig_filename: None,
                    libpyembeddedconfig_data: None,
                    cargo_metadata,
                };
                assert(r.cargo_metadata.deep_view() =~= seq![
                    "cargo:rustc-link-lib=static=pythonXY"@,
                    "cargo:rustc-link-arg="@ + self.config.libpython_path@,
                ]);
                r
            },
        }
    }
}

impl StandalonePythonExecutableBuilder {
    /// Add a `PythonModuleSource` at `location`, or where the policy puts
    /// it when `location` is `None`.
    pub fn add_python_module_source(&mut self, module: PythonModuleSource, location: Option<ConcreteResourceLocation>) -> (r:
        Result<(), ResourceError>)
        requires
            old(self).wf(),
        ensures
            final(self).wf(),
            final(self).spec_config() == old(self).spec_config(),
            adds_as_placed(
                old(self).entries(),
                final(self).entries(),
                resource_placement(old(self).spec_config().policy, location),
                PythonResource::ModuleSource(module),
                r,
            ),
    {
        self.add_resource(PythonResource::ModuleSource(module), location)
    }

    /// Add a `PythonModuleBytecodeFromSource` at `location`, or where the
    /// policy puts it when `location` is `None`.
    pub fn add_python_module_bytecode_from_source(
        &mut self,
        module: PythonModuleBytecodeFromSource,
        location: Option<ConcreteResourceLocation>,
    ) -> (r: Result<(), ResourceError>)
        requires
            old(self).wf(),
        ensures
            final(self).wf(),
            final(self).spec_config() == old(self).spec_config(),
            adds_as_placed(
                old(self).entries(),
                final(self).entries(),
                resource_placement(old(self).spec_config().policy, location),
                PythonResource::ModuleBytecodeRequest(module),
                r,
            ),
    {
        self.add_resource(PythonResource::ModuleBytecodeRequest(module), location)
    }

    /// Add a `PythonPackageResource` at `location`, or where the policy
    /// puts it when `location` is `None`.
    pub fn add_python_package_resource(&mut self, resource: PythonPackageResource, location: Option<ConcreteResourceLocation>) -> (r:
        Result<(), ResourceError>)
        requires
            old(self).wf(),
        ensures
            final(self).wf(),
            final(self).spec_config() == old(self).spec_config(),
            adds_as_placed(
                old(self).entries(),
                final(self).entries(),
                resource_placement(old(self).spec_config().policy, location),
                PythonResource::Resource(resource),
                r,
            ),
    {
        self.add_resource(PythonResource::Resource(resource), location)
    }

    /// Add a `PythonPackageDistributionResource` at `location`, or where
    /// the policy puts it when `location` is `None`.
    pub fn add_python_package_distribution_resource(
        &mut self,
        resource: PythonPackageDistributionResource,
        location: Option<ConcreteResourceLocation>,
    ) -> (r: Result<(), ResourceError>)
        requires
            old(self).wf(),
        ensures
            final(self).wf(),
            final(self).spec_config() == old(self).spec_config(),
            adds_as_placed(
                old(self).entries(),
                final(self).entries(),
                resource_placement(old(self).spec_config().policy, location),
                PythonResource::DistributionResource(resource),
                r,
            ),
    {
        self.add_resource(PythonResource::DistributionResource(resource), location)
    }

    /// Records extension module `ext` where `extension_placement` puts it.
    fn add_extension(
        &mut self,
        ext: PythonExtensionModule,
        requested: Option<ConcreteResourceLocation>,
        honor_builtin: bool,
    ) -> (r: Result<(), ResourceError>)
        requires
            old(self).wf(),
        ensures
            final(self).wf(),
            final(self).spec_config() == old(self).spec_config(),
            adds_extension(old(self), final(self), ext, requested, honor_builtin, r),
    {
        let linkable = ext.object_file_data.len() > 0;
        let is_static = match self.config.link_mode {
            LibpythonLinkMode::Static => true,
            LibpythonLinkMode::Dynamic => false,
        };
        let placement = if honor_builtin && ext.builtin_default {
            Some(ConcreteResourceLocation::BuiltIn)
        } else {
            let loc = match requested {
                Some(l) => l,
                None => if is_static && linkable {
                    ConcreteResourceLocation::BuiltIn
                } else {
                    copy_placement(&self.config.policy.resources_location)
                },
            };
            let (is_builtin, in_memory) = match &loc {
                ConcreteResourceLocation::BuiltIn => (true, false),
                ConcreteResourceLocation::InMemory => (false, true),
                ConcreteResourceLocation::RelativePath(_) => (false, false),
            };
            if is_static || is_builtin {
                if is_static && linkable {
                    Some(ConcreteResourceLocation::BuiltIn)
                } else {
                    None
                }
            } else if ext.shared_library.is_none() {
                None
            } else if in_memory && !self.config.policy.allow_in_memory_shared_library_loading {
                None
            } else {
                Some(loc)
            }
        };
        match placement {
            Some(l) => {
                let resource = match &l {
                    ConcreteResourceLocation::BuiltIn => PythonResource::ExtensionModuleStaticallyLinked(ext),
                    _ => PythonResource::ExtensionModuleDynamicLibrary(ext),
                };
                self.insert(resource, l);
                Ok(())
            },
            None => Err(ResourceError::UnsupportedPlacement(ext.name.clone())),
        }
    }

    /// Add a `PythonExtensionModule` at `location`, or where the policy
    /// puts it when `location` is `None`. A module compiled into the
    /// runtime by default stays there whatever `location` says.
    pub fn add_python_extension_module(
        &mut self,
        extension_module: PythonExtensionModule,
        location: Option<ConcreteResourceLocation>,
    ) -> (r: Result<(), ResourceError>)
        requires
            old(self).wf(),
        ensures
            final(self).wf(),
            final(self).spec_config() == old(self).spec_config(),
            adds_extension(old(self), final(self), extension_module, location, true, r),
    {
        self.add_extension(extension_module, location, true)
    }

    /// Add an extension module from a Python distribution to be loaded from
    /// memory.
    pub fn add_in_memory_distribution_extension_module(&mut self, extension_module: PythonExtensionModule) -> (r:
        Result<(), ResourceError>)
        requires
            old(self).wf(),
        ensures
            final(self).wf(),
            final(self).spec_config() == old(self).spec_config(),
            adds_extension(
                old(self),
                final(self),
                extension_module,
                Some(ConcreteResourceLocation::InMemory),
                true,
                r,
            ),
    {
        self.add_extension(extension_module, Some(ConcreteResourceLocation::InMemory), true)
    }

    /// Add an extension module from a Python distribution to be loaded from
    /// a path relative to the binary.
    pub fn add_relative_path_distribution_extension_module(&mut self, prefix: &str, extension_module: PythonExtensionModule) -> (r:
        Result<(), ResourceError>)
        requires
            old(self).wf(),
        ensures
            final(self).wf(),
            final(self).spec_config() == old(self).spec_config(),
            exists|p: String|
                p@ == prefix@ && adds_extension(
                    old(self),
                    final(self),
                    extension_module,
                    Some(ConcreteResourceLocation::RelativePath(p)),
                    true,
                    r,
                ),
    {
        let p = String::from_str(prefix);
        let ghost gp = p;
        let r = self.add_extension(extension_module, Some(ConcreteResourceLocation::RelativePath(p)), true);
        assert(gp@ == prefix@);
        r
    }

    /// Add an extension module from a Python distribution, placed as the
    /// policy allows.
    pub fn add_distribution_extension_module(&mut self, extension_module: PythonExtensionModule) -> (r: Result<
        (),
        ResourceError,
    >)
        requires
            old(self).wf(),
        ensures
            final(self).wf(),
            final(self).spec_config() == old(self).spec_config(),
            adds_extension(old(self), final(self), extension_module, None, true, r),
    {
        self.add_extension(extension_module, None, true)
    }

    /// Add an extension module defined by a dynamic library, to be loaded
    /// from memory.
    pub fn add_in_memory_dynamic_extension_module(&mut self, extension_module: PythonExtensionModule) -> (r:
        Result<(), ResourceError>)
        requires
            old(self).wf(),
        ensures
            final(self).wf(),
            final(self).spec_config() == old(self).spec_config(),
            adds_extension(
                old(self),
                final(self),
                extension_module,
                Some(ConcreteResourceLocation::InMemory),
                false,
                r,
            ),
    {
        self.add_extension(extension_module, Some(ConcreteResourceLocation::InMemory), false)
    }

    /// Add an extension module defined by a dynamic library, to be loaded
    /// from a path relative to the binary.
    pub fn add_relative_path_dynamic_extension_module(&mut self, prefix: &str, extension_module: PythonExtensionModule) -> (r:
        Result<(), ResourceError>)
        requires
            old(self).wf(),
        ensures
            final(self).wf(),
            final(self).spec_config() == old(self).spec_config(),
            exists|p: String|
                p@ == prefix@ && adds_extension(
                    old(self),
                    final(self),
                    extension_module,
                    Some(ConcreteResourceLocation::RelativePath(p)),
                    false,
                    r,
                ),
    {
        let p = String::from_str(prefix);
        let ghost gp = p;
        let r = self.add_extension(extension_module, Some(ConcreteResourceLocation::RelativePath(p)), false);
        assert(gp@ == prefix@);
        r
    }

    /// Add an extension module defined by a dynamic library, placed as the
    /// policy allows: loaded from memory or installed next to the binary.
    pub fn add_dynamic_extension_module(&mut self, extension_module: PythonExtensionModule) -> (r: Result<
        (),
        ResourceError,
    >)
        requires
            old(self).wf(),
        ensures
            final(self).wf(),
            final(self).spec_config() == old(self).spec_config(),
            adds_extension(old(self), final(self), extension_module, None, false, r),
    {
        self.add_extension(extension_module, None, false)
    }
}

/// Whether one of the line lists `lines` holds `name`.
fn listed_in(lines: &Vec<Vec<String>>, name: &String) -> (r: bool)
    ensures
        r == exists|k: int| 0 <= k < lines.len() && (#[trigger] lines@[k]).deep_view().contains(name@),
{
    for k in 0..lines.len()
        invariant
            forall|j: int| 0 <= j < k ==> !(#[trigger] lines@[j]).deep_view().contains(name@),
    {
        if contains_string(&lines[k], name) {
            let ghost i = choose|i: int| 0 <= i < lines@[k as int].len() && #[trigger] lines@[k as int]@[i]@ == name@;
            assert(lines@[k as int].deep_view()[i] == name@);
            return true;
        }
        assert forall|i: int| 0 <= i < lines@[k as int].deep_view().len() implies lines@[k as int].deep_view()[i]
            != name@ by {
            assert(lines@[k as int].deep_view()[i] == lines@[k as int]@[i]@);
        }
    }
    false
}

impl StandalonePythonExecutableBuilder {
    /// Keep only the accumulated resources whose name is a line of one of
    /// `listings`, the texts of files listing resource names.
    pub fn filter_resources_from_files(&mut self, listings: &Vec<String>)
        requires
            old(self).wf(),
        ensures
            final(self).wf(),
            final(self).spec_config() == old(self).spec_config(),
            final(self).entries() == old(self).entries().filter(listed_entry(listings@)),
    {
        let mut lines: Vec<Vec<String>> = Vec::new();
        for k in 0..listings.len()
            invariant
                lines.len() == k,
                forall|j: int| 0 <= j < k ==> (#[trigger] lines@[j]).deep_view() == split_on(listings@[j]@, '\n'),
        {
            lines.push(split_on_char(listings[k].as_str(), '\n'));
        }
        let ghost entries = self.entries();
        let ghost keep = listed_entry(listings@);
        let ghost old_resources = self.resources@;
        let mut rest: Vec<(String, PrePackagedResource)> = Vec::new();
        core::mem::swap(&mut self.resources, &mut rest);
        let n = rest.len();
        let mut kept: Vec<(String, PrePackagedResource)> = Vec::new();
        let ghost mut origin: Seq<int> = Seq::empty();
        assert(old_resources.skip(0) =~= old_resources);
        assert(entries.take(0).filter(keep) =~= Seq::<(Seq<char>, PrePackagedResource)>::empty());
        for i in 0..n
            invariant
                n == old_resources.len(),
                entries == old_resources.map_values(|e: (String, PrePackagedResource)| (e.0@, e.1)),
                keep == listed_entry(listings@),
                lines.len() == listings.len(),
                forall|j: int| 0 <= j < lines.len() ==> (#[trigger] lines@[j]).deep_view() == split_on(listings@[j]@, '\n'),
                rest@ == old_resources.skip(i as int),
                kept@.map_values(|e: (String, PrePackagedResource)| (e.0@, e.1)) == entries.take(i as int).filter(keep),
                origin.len() == kept.len(),
                forall|a: int|
                    0 <= a < kept.len() ==> 0 <= #[trigger] origin[a] < i && kept@[a] == old_resources[origin[a]],
                forall|a: int, b: int| 0 <= a < b < kept.len() ==> #[trigger] kept@[a].0@ != #[trigger] kept@[b].0@,
                forall|a: int, b: int|
                    0 <= a < b < old_resources.len() ==> #[trigger] old_resources[a].0@ != #[trigger] old_resources[b].0@,
                forall|a: int|
                    0 <= a < old_resources.len() ==> (#[trigger] old_resources[a]).0@
                        == old_resources[a].1.resource.spec_full_name(),
        {
            proof {
                reveal(Seq::filter);
            }
            assert(rest@[0] == old_resources[i as int]);
            let e = rest.remove(0);
            assert(rest@ =~= old_resources.skip(i + 1));
            assert(entries.take(i + 1).drop_last() =~= entries.take(i as int));
            assert(entries.take(i + 1).last() == entries[i as int]);
            let ghost before = kept@;
            let listed = listed_in(&lines, &e.0);
            assert(listed == keep(entries[i as int])) by {
                if listed {
                    let k = choose|k: int| 0 <= k < lines.len() && (#[trigger] lines@[k]).deep_view().contains(e.0@);
                    assert(split_on(listings@[k]@, '\n').contains(e.0@));
                }
                if keep(entries[i as int]) {
                    let k = choose|k: int| 0 <= k < listings@.len() && split_on(#[trigger] listings@[k]@, '\n').contains(e.0@);
                    assert(lines@[k].deep_view().contains(e.0@));
                }
            }
            if listed {
                assert forall|a: int| 0 <= a < before.len() implies #[trigger] before[a].0@ != e.0@ by {
                    assert(old_resources[origin[a]].0@ != old_resources[i as int].0@);
                }
                kept.push(e);
                proof {
                    origin = origin.push(i as int);
                }
                assert(kept@.map_values(|e: (String, PrePackagedResource)| (e.0@, e.1)) =~= before.map_values(
                    |e: (String, PrePackagedResource)| (e.0@, e.1),
                ).push(entries[i as int]));
            }
        }
        assert(entries.take(n as int) =~= entries);
        assert forall|a: int| 0 <= a < kept.len() implies (#[trigger] kept@[a]).0@ == kept@[a].1.resource.spec_full_name() by {
            assert(kept@[a] == old_resources[origin[a]]);
        }
        self.resources = kept;
    }

    /// The embedding context of what was accumulated: the linking
    /// information, the newline-terminated names of all resources in the
    /// order first added, and the packed resources in the same order.
    pub fn to_embedded_python_context(&self) -> (r: EmbeddedPythonContext)
        ensures
            self.links_as_configured(r.linking_info),
            r.module_names@ == names_listing(self.entries().map_values(|e: (Seq<char>, PrePackagedResource)| e.0)),
            r.resources@ == packed_entries(self.entries()),
            r.host_triple@ == self.spec_config().host_triple@,
            r.target_triple@ == self.spec_config().target_triple@,
    {
        let ghost entries = self.entries();
        let mut module_names: Vec<u8> = Vec::new();
        let mut resources: Vec<u8> = Vec::new();
        for i in 0..self.resources.len()
            invariant
                entries == self.entries(),
                module_names@ == names_listing(
                    entries.take(i as int).map_values(|e: (Seq<char>, PrePackagedResource)| e.0),
                ),
                resources@ == packed_entries(entries.take(i as int)),
        {
            assert(entries.take(i + 1).drop_last() =~= entries.take(i as int));
            assert(entries.take(i + 1).map_values(|e: (Seq<char>, PrePackagedResource)| e.0).drop_last()
                =~= entries.take(i as int).map_values(|e: (Seq<char>, PrePackagedResource)| e.0));
            let name = &self.resources[i].0;
            let entry = &self.resources[i].1;
            extend_bytes(&mut module_names, name.as_str().as_bytes());
            module_names.push(10);
            let ghost before = resources@;
            resources.push(kind_code(&entry.resource));
            resources.push(placement_code(&entry.location));
            resources.push(flags_code(&entry.resource));
            extend_bytes(&mut resources, name.as_str().as_bytes());
            resources.push(0);
            match &entry.location {
                ConcreteResourceLocation::RelativePath(prefix) => {
                    extend_bytes(&mut resources, prefix.as_str().as_bytes());
                    resources.push(0);
                },
                _ => {},
            }
            assert(resources@ =~= before + packed_entry(entries[i as int].0, entries[i as int].1));
        }
        assert(entries.take(self.resources.len() as int) =~= entries);
        EmbeddedPythonContext {
            linking_info: self.linking_info(),
            module_names,
            resources,
            host_triple: self.config.host_triple.clone(),
            target_triple: self.config.target_triple.clone(),
        }
    }
}

/// The tag that stands for the kind of `r` in packed resources.
fn kind_code(r: &PythonResource) -> (b: u8)
    ensures
        b == kind_tag(*r),
{
    match r {
        PythonResource::ModuleSource(_) => 0,
        PythonResource::ModuleBytecodeRequest(_) => 1,
        PythonResource::ModuleBytecode(_) => 2,
        PythonResource::Resource(_) => 3,
        PythonResource::DistributionResource(_) => 4,
        PythonResource::ExtensionModuleDynamicLibrary(_) => 5,
        PythonResource::ExtensionModuleStaticallyLinked(_) => 6,
        PythonResource::EggFile(_) => 7,
        PythonResource::PathExtension(_) => 8,
    }
}

/// The tag that stands for placement `l` in packed resources.
fn placement_code(l: &ConcreteResourceLocation) -> (b: u8)
    ensures
        b == placement_tag(*l),
{
    match l {
        ConcreteResourceLocation::InMemory => 0,
        ConcreteResourceLocation::RelativePath(_) => 1,
        ConcreteResourceLocation::BuiltIn => 2,
    }
}

/// The flags byte of `r` in packed resources.
fn flags_code(r: &PythonResource) -> (b: u8)
    ensures
        b == flags_byte(*r),
{
    let (is_package, is_stdlib, is_test) = match r {
        PythonResource::ModuleSource(m) => (m.is_package, m.is_stdlib, m.is_test),
        PythonResource::ModuleBytecodeRequest(m) => (m.is_package, m.is_stdlib, m.is_test),
        PythonResource::ModuleBytecode(m) => (m.is_package, m.is_stdlib, m.is_test),
        PythonResource::Resource(p) => (false, p.is_stdlib, p.is_test),
        PythonResource::DistributionResource(_) => (false, false, false),
        PythonResource::ExtensionModuleDynamicLibrary(e) => (e.is_package, e.is_stdlib, false),
        PythonResource::ExtensionModuleStaticallyLinked(e) => (e.is_package, e.is_stdlib, false),
        PythonResource::EggFile(_) => (false, false, false),
        PythonResource::PathExtension(_) => (false, false, false),
    };
    let mut b: u8 = 0;
    if is_package {
        b = b + 1;
    }
    if is_stdlib {
        b = b + 2;
    }
    if is_test {
        b = b + 4;
    }
    b
}

/// Whether adding extension module `ext` with `requested` placement took
/// builder `before` to `after` and returned `r`.
pub open spec fn adds_extension(
    before: &StandalonePythonExecutableBuilder,
    after: &StandalonePythonExecutableBuilder,
    ext: PythonExtensionModule,
    requested: Option<ConcreteResourceLocation>,
    honor_builtin: bool,
    r: Result<(), ResourceError>,
) -> bool {
    let placement = extension_placement(before.spec_config(), ext, requested, honor_builtin);
    match placement {
        Some(l) => adds_as_placed(before.entries(), after.entries(), placement, placed_extension(ext, l), r),
        None => adds_as_placed(
            before.entries(),
            after.entries(),
            placement,
            PythonResource::ExtensionModuleDynamicLibrary(ext),
            r,
        ),
    }
}

} // verus!
