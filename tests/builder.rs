use python_packaging::binary::{
    cargo_metadata_lines, BinaryBuilderConfig, ConcreteResourceLocation, LibpythonLinkMode,
    PythonPackagingPolicy, StandalonePythonExecutableBuilder,
};
use python_packaging::location::{DataLocation, FileSnapshot, ResourceError};
use python_packaging::resource::{
    BytecodeOptimizationLevel, CompileMode, PythonBytecodeCompiler, PythonExtensionModule,
    PythonModuleSource, PythonPackageResource, PythonResource,
};

fn config(link_mode: LibpythonLinkMode) -> BinaryBuilderConfig {
    BinaryBuilderConfig {
        exe_name: "app".to_string(),
        link_mode,
        cache_tag: "cpython-37".to_string(),
        policy: PythonPackagingPolicy {
            resources_location: ConcreteResourceLocation::InMemory,
            allow_in_memory_shared_library_loading: false,
        },
        libpython_data: vec![0xAB, 0xCD],
        libpython_path: "/usr/lib/libpython3.7m.so".to_string(),
        config_table_data: None,
        use_jemalloc: true,
        host_triple: "x86_64-unknown-linux-gnu".to_string(),
        target_triple: "x86_64-unknown-linux-gnu".to_string(),
    }
}

fn module(name: &str, data: &[u8]) -> PythonModuleSource {
    PythonModuleSource {
        name: name.to_string(),
        source: DataLocation::Memory(data.to_vec()),
        is_package: false,
        cache_tag: "cpython-37".to_string(),
        is_stdlib: true,
        is_test: false,
    }
}

fn extension(name: &str) -> PythonExtensionModule {
    PythonExtensionModule {
        name: name.to_string(),
        init_fn: None,
        extension_file_suffix: ".so".to_string(),
        shared_library: None,
        object_file_data: vec![],
        is_package: false,
        link_libraries: vec![],
        is_stdlib: true,
        builtin_default: false,
        required: false,
        variant: None,
        licenses: None,
        license_texts: None,
        license_public_domain: None,
    }
}

fn names(builder: &StandalonePythonExecutableBuilder) -> Vec<String> {
    builder.iter_resources().iter().map(|(n, _)| n.clone()).collect()
}

#[test]
fn adding_same_name_twice_keeps_second() {
    let mut b = StandalonePythonExecutableBuilder::new(config(LibpythonLinkMode::Static));
    b.add_python_module_source(module("foo", b"first"), None).unwrap();
    b.add_python_module_source(module("bar", b"other"), None).unwrap();
    b.add_python_module_source(module("foo", b"second"), Some(ConcreteResourceLocation::RelativePath("lib".to_string())))
        .unwrap();
    assert_eq!(names(&b), vec!["foo".to_string(), "bar".to_string()]);
    let (_, entry) = &b.iter_resources()[0];
    assert_eq!(entry.resource, PythonResource::ModuleSource(module("foo", b"second")));
    assert_eq!(entry.location, ConcreteResourceLocation::RelativePath("lib".to_string()));
}

#[test]
fn filter_keeps_only_listed_names() {
    let mut b = StandalonePythonExecutableBuilder::new(config(LibpythonLinkMode::Static));
    b.add_python_module_source(module("a", b""), None).unwrap();
    b.add_python_module_source(module("b", b""), None).unwrap();
    b.add_python_module_source(module("c", b""), None).unwrap();
    b.filter_resources_from_files(&vec!["b".to_string()]);
    assert_eq!(names(&b), vec!["b".to_string()]);
    b.filter_resources_from_files(&vec!["x\ny".to_string()]);
    assert!(b.iter_resources().is_empty());
}

#[test]
fn filter_reads_every_line_of_every_listing() {
    let mut b = StandalonePythonExecutableBuilder::new(config(LibpythonLinkMode::Static));
    for n in ["a", "b", "c", "d"] {
        b.add_python_module_source(module(n, b""), None).unwrap();
    }
    b.filter_resources_from_files(&vec!["d\na".to_string(), "zz\nc".to_string()]);
    assert_eq!(names(&b), vec!["a".to_string(), "c".to_string(), "d".to_string()]);
}

#[test]
fn end_to_end_static_embedding() {
    let mut b = StandalonePythonExecutableBuilder::new(config(LibpythonLinkMode::Static));
    b.add_python_module_source(module("os", b"import sys"), None).unwrap();
    let mut io = extension("_io");
    io.required = true;
    io.builtin_default = true;
    b.add_distribution_extension_module(io).unwrap();
    let ctx = b.to_embedded_python_context();
    assert_eq!(ctx.module_names, b"os\n_io\n".to_vec());
    assert_eq!(b.libpython_link_mode(), LibpythonLinkMode::Static);
    assert_eq!(ctx.linking_info.libpythonxy_filename, "libpythonXY.a");
    assert_eq!(ctx.linking_info.libpythonxy_data, vec![0xAB, 0xCD]);
    assert_eq!(ctx.linking_info.libpython_filename, None);
    assert_eq!(ctx.linking_info.cargo_metadata, vec!["cargo:rustc-link-lib=static=pythonXY".to_string()]);
    // os: source module, in memory, stdlib; _io: statically linked, built in, stdlib.
    let mut packed = vec![0u8, 0, 2];
    packed.extend_from_slice(b"os\0");
    packed.extend_from_slice(&[6, 2, 2]);
    packed.extend_from_slice(b"_io\0");
    assert_eq!(ctx.resources, packed);
    assert_eq!(ctx.host_triple, "x86_64-unknown-linux-gnu");
}

#[test]
fn dynamic_linking_info() {
    let b = StandalonePythonExecutableBuilder::new(config(LibpythonLinkMode::Dynamic));
    let info = b.linking_info();
    assert!(info.libpythonxy_data.is_empty());
    assert_eq!(info.libpython_filename, Some("/usr/lib/libpython3.7m.so".to_string()));
    assert_eq!(info.libpyembeddedconfig_data, None);
    assert_eq!(
        info.cargo_metadata,
        vec![
            "cargo:rustc-link-lib=static=pythonXY".to_string(),
            "cargo:rustc-link-arg=/usr/lib/libpython3.7m.so".to_string()
        ]
    );
}

#[test]
fn static_linking_with_config_table() {
    let mut c = config(LibpythonLinkMode::Static);
    c.config_table_data = Some(vec![1, 2, 3]);
    let info = StandalonePythonExecutableBuilder::new(c).linking_info();
    assert_eq!(info.libpyembeddedconfig_filename, Some("libpyembeddedconfig.a".to_string()));
    assert_eq!(info.libpyembeddedconfig_data, Some(vec![1, 2, 3]));
    assert_eq!(info.cargo_metadata.len(), 2);
}

#[test]
fn builtin_placement_refused_for_modules() {
    let mut b = StandalonePythonExecutableBuilder::new(config(LibpythonLinkMode::Static));
    let r = b.add_python_module_source(module("foo", b""), Some(ConcreteResourceLocation::BuiltIn));
    assert_eq!(r, Err(ResourceError::UnsupportedPlacement("foo".to_string())));
    assert!(b.iter_resources().is_empty());
}

#[test]
fn static_builder_refuses_shared_library_without_objects() {
    let mut b = StandalonePythonExecutableBuilder::new(config(LibpythonLinkMode::Static));
    let mut em = extension("fast");
    em.shared_library = Some(DataLocation::Memory(vec![1]));
    assert_eq!(
        b.add_relative_path_dynamic_extension_module("lib", em.clone()),
        Err(ResourceError::UnsupportedPlacement("fast".to_string()))
    );
    em.object_file_data = vec![DataLocation::Memory(vec![2])];
    b.add_dynamic_extension_module(em).unwrap();
    let (_, entry) = &b.iter_resources()[0];
    assert_eq!(entry.location, ConcreteResourceLocation::BuiltIn);
    assert!(matches!(entry.resource, PythonResource::ExtensionModuleStaticallyLinked(_)));
}

#[test]
fn dynamic_builder_places_shared_libraries() {
    let mut b = StandalonePythonExecutableBuilder::new(config(LibpythonLinkMode::Dynamic));
    let mut em = extension("fast");
    em.shared_library = Some(DataLocation::Memory(vec![1]));
    assert_eq!(
        b.add_in_memory_dynamic_extension_module(em.clone()),
        Err(ResourceError::UnsupportedPlacement("fast".to_string()))
    );
    b.add_relative_path_distribution_extension_module("lib", em.clone()).unwrap();
    let (_, entry) = &b.iter_resources()[0];
    assert_eq!(entry.location, ConcreteResourceLocation::RelativePath("lib".to_string()));
    assert!(matches!(entry.resource, PythonResource::ExtensionModuleDynamicLibrary(_)));
    let no_library = extension("nolib");
    assert_eq!(
        b.add_python_extension_module(no_library, None),
        Err(ResourceError::UnsupportedPlacement("nolib".to_string()))
    );
    let mut c = config(LibpythonLinkMode::Dynamic);
    c.policy.allow_in_memory_shared_library_loading = true;
    let mut b2 = StandalonePythonExecutableBuilder::new(c);
    b2.add_in_memory_distribution_extension_module(em).unwrap();
    assert_eq!(b2.iter_resources()[0].1.location, ConcreteResourceLocation::InMemory);
}

#[test]
fn resources_are_keyed_by_full_name() {
    let mut b = StandalonePythonExecutableBuilder::new(config(LibpythonLinkMode::Static));
    let r = PythonPackageResource {
        leaf_package: "foo".to_string(),
        relative_name: "data.txt".to_string(),
        data: DataLocation::Memory(vec![]),
        is_stdlib: false,
        is_test: true,
    };
    b.add_python_package_resource(r, Some(ConcreteResourceLocation::RelativePath("res".to_string()))).unwrap();
    assert_eq!(names(&b), vec!["foo.data.txt".to_string()]);
    let ctx = b.to_embedded_python_context();
    let mut packed = vec![3u8, 1, 4];
    packed.extend_from_slice(b"foo.data.txt\0res\0");
    assert_eq!(ctx.resources, packed);
}

#[test]
fn builder_queries() {
    let b = StandalonePythonExecutableBuilder::new(config(LibpythonLinkMode::Dynamic));
    assert_eq!(b.name(), "app");
    assert_eq!(b.cache_tag(), "cpython-37");
    assert!(b.requires_jemalloc());
    assert_eq!(b.python_packaging_policy().resources_location, ConcreteResourceLocation::InMemory);
}

#[test]
fn metadata_lines_end_with_search_path_and_config() {
    let lines = cargo_metadata_lines(&vec!["cargo:rustc-link-lib=static=pythonXY".to_string()], "/out", "/out/config.rs");
    assert_eq!(
        lines,
        vec![
            "cargo:rustc-link-lib=static=pythonXY".to_string(),
            "cargo:rustc-link-search=native=/out".to_string(),
            "cargo:default-python-config-rs=/out/config.rs".to_string(),
        ]
    );
}

struct Recorder {
    seen: Vec<(Vec<u8>, String, BytecodeOptimizationLevel)>,
}

impl PythonBytecodeCompiler for Recorder {
    fn compile(
        &mut self,
        source: &[u8],
        filename: &str,
        optimize: BytecodeOptimizationLevel,
        _output_mode: CompileMode,
    ) -> Result<Vec<u8>, ResourceError> {
        self.seen.push((source.to_vec(), filename.to_string(), optimize));
        if source.is_empty() {
            Err(ResourceError::CompilerFailure("empty".to_string()))
        } else {
            Ok(vec![source.len() as u8])
        }
    }
}

#[test]
fn compile_hands_source_to_compiler() {
    let mut compiler = Recorder { seen: vec![] };
    let request = module("foo", b"x = 1").as_bytecode_module(BytecodeOptimizationLevel::One);
    let disk = FileSnapshot::new();
    assert_eq!(request.compile(&mut compiler, CompileMode::Bytecode, &disk), Ok(vec![5]));
    assert_eq!(compiler.seen, vec![(b"x = 1".to_vec(), "foo".to_string(), BytecodeOptimizationLevel::One)]);
    let empty = module("e", b"").as_bytecode_module(BytecodeOptimizationLevel::Zero);
    assert_eq!(
        empty.compile(&mut compiler, CompileMode::Bytecode, &disk),
        Err(ResourceError::CompilerFailure("empty".to_string()))
    );
    let missing = PythonModuleSource { source: DataLocation::Path("nope.py".to_string()), ..module("m", b"") }
        .as_bytecode_module(BytecodeOptimizationLevel::Zero);
    assert_eq!(
        missing.compile(&mut compiler, CompileMode::Bytecode, &disk),
        Err(ResourceError::Io("nope.py".to_string()))
    );
    assert_eq!(compiler.seen.len(), 2);
}
