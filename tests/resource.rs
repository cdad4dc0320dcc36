use python_packaging::location::{DataLocation, FileSnapshot, ResourceError};
use python_packaging::resource::{
    BytecodeOptimizationLevel, LibraryDependency, PythonEggFile, PythonExtensionModule,
    PythonExtensionModuleVariants, PythonModuleBytecode, PythonModuleBytecodeFromSource,
    PythonModuleSource, PythonPackageDistributionResource, PythonPackageDistributionResourceFlavor,
    PythonPackageResource, PythonPathExtension, PythonResource,
};
use std::convert::TryFrom;

const DEFAULT_CACHE_TAG: &str = "cpython-37";

fn source_module(name: &str, is_package: bool, source: DataLocation) -> PythonModuleSource {
    PythonModuleSource {
        name: name.to_string(),
        source,
        is_package,
        cache_tag: DEFAULT_CACHE_TAG.to_string(),
        is_stdlib: false,
        is_test: false,
    }
}

fn extension(name: &str, variant: Option<&str>) -> PythonExtensionModule {
    PythonExtensionModule {
        name: name.to_string(),
        init_fn: Some(format!("PyInit_{}", name)),
        extension_file_suffix: ".so".to_string(),
        shared_library: None,
        object_file_data: vec![],
        is_package: false,
        link_libraries: vec![],
        is_stdlib: false,
        builtin_default: false,
        required: false,
        variant: variant.map(|v| v.to_string()),
        licenses: None,
        license_texts: None,
        license_public_domain: None,
    }
}

#[test]
fn test_is_in_packages() {
    let source = PythonResource::ModuleSource(PythonModuleSource {
        name: "foo".to_string(),
        source: DataLocation::Memory(vec![]),
        is_package: false,
        cache_tag: DEFAULT_CACHE_TAG.to_string(),
        is_stdlib: false,
        is_test: false,
    });
    assert!(source.is_in_packages(&["foo".to_string()]));
    assert!(!source.is_in_packages(&[]));
    assert!(!source.is_in_packages(&["bar".to_string()]));

    let bytecode = PythonResource::ModuleBytecode(PythonModuleBytecode {
        name: "foo".to_string(),
        bytecode: DataLocation::Memory(vec![]),
        optimize_level: BytecodeOptimizationLevel::Zero,
        is_package: false,
        cache_tag: DEFAULT_CACHE_TAG.to_string(),
        is_stdlib: false,
        is_test: false,
    });
    assert!(bytecode.is_in_packages(&["foo".to_string()]));
    assert!(!bytecode.is_in_packages(&[]));
    assert!(!bytecode.is_in_packages(&["bar".to_string()]));
}

#[test]
fn dotted_name_is_in_its_packages() {
    let r = PythonResource::ModuleSource(source_module("foo.bar", false, DataLocation::Memory(vec![])));
    assert!(r.is_in_packages(&["foo".to_string()]));
    assert!(r.is_in_packages(&["foo.bar".to_string()]));
    assert!(!r.is_in_packages(&[]));
    assert!(!r.is_in_packages(&["baz".to_string()]));
    assert!(!r.is_in_packages(&["fo".to_string()]));
    assert!(!r.is_in_packages(&["foo.b".to_string()]));
    assert!(r.is_in_packages(&["baz".to_string(), "foo".to_string()]));
}

#[test]
fn package_resource_membership_uses_leaf_package() {
    let r = PythonResource::Resource(PythonPackageResource {
        leaf_package: "foo.bar".to_string(),
        relative_name: "data.txt".to_string(),
        data: DataLocation::Memory(vec![1]),
        is_stdlib: false,
        is_test: false,
    });
    assert!(r.is_in_packages(&["foo".to_string()]));
    assert!(!r.is_in_packages(&["data.txt".to_string()]));
    let egg = PythonResource::EggFile(PythonEggFile { data: DataLocation::Memory(vec![]) });
    assert!(!egg.is_in_packages(&["".to_string()]));
}

#[test]
fn to_memory_survives_losing_the_file() {
    let mut disk = FileSnapshot::new();
    disk.insert("/src/foo.py".to_string(), b"import os\n".to_vec());
    let module = source_module("foo", false, DataLocation::Path("/src/foo.py".to_string()));
    let copy = module.to_memory(&disk).unwrap();
    assert_eq!(copy.source, DataLocation::Memory(b"import os\n".to_vec()));
    assert_eq!(copy.name, "foo");
    let empty = FileSnapshot::new();
    assert_eq!(copy.source.resolve(&empty).unwrap(), b"import os\n".to_vec());
    assert_eq!(
        module.source.resolve(&empty),
        Err(ResourceError::Io("/src/foo.py".to_string()))
    );

    let resource = PythonResource::ModuleSource(module);
    let copied = resource.to_memory(&disk).unwrap();
    assert_eq!(
        copied,
        PythonResource::ModuleSource(source_module("foo", false, DataLocation::Memory(b"import os\n".to_vec())))
    );
    assert_eq!(copied.to_memory(&empty).unwrap(), copied);
}

#[test]
fn to_memory_of_extension_copies_every_file() {
    let mut disk = FileSnapshot::new();
    disk.insert("/ext/foo.so".to_string(), vec![1, 2, 3]);
    disk.insert("/ext/foo.o".to_string(), vec![4]);
    disk.insert("/ext/libz.a".to_string(), vec![5, 6]);
    disk.insert("/ext/LICENSE".to_string(), b"MIT".to_vec());
    let mut em = extension("foo", None);
    em.shared_library = Some(DataLocation::Path("/ext/foo.so".to_string()));
    em.object_file_data = vec![DataLocation::Path("/ext/foo.o".to_string())];
    em.link_libraries = vec![LibraryDependency {
        name: "z".to_string(),
        static_library: Some(DataLocation::Path("/ext/libz.a".to_string())),
        dynamic_library: None,
        framework: false,
        system: false,
    }];
    em.license_texts = Some(vec![DataLocation::Path("/ext/LICENSE".to_string())]);
    let copy = em.to_memory(&disk).unwrap();
    assert_eq!(copy.shared_library, Some(DataLocation::Memory(vec![1, 2, 3])));
    assert_eq!(copy.object_file_data, vec![DataLocation::Memory(vec![4])]);
    assert_eq!(copy.link_libraries[0].static_library, Some(DataLocation::Memory(vec![5, 6])));
    assert_eq!(copy.license_texts, Some(vec![DataLocation::Memory(b"MIT".to_vec())]));
    assert_eq!(copy.init_fn, Some("PyInit_foo".to_string()));

    let mut missing = em.clone();
    missing.object_file_data.push(DataLocation::Path("/ext/gone.o".to_string()));
    assert_eq!(missing.to_memory(&disk), Err(ResourceError::Io("/ext/gone.o".to_string())));
}

#[test]
fn later_snapshot_record_replaces_earlier() {
    let mut disk = FileSnapshot::new();
    disk.insert("a".to_string(), vec![1]);
    disk.insert("b".to_string(), vec![2]);
    disk.insert("a".to_string(), vec![3]);
    assert_eq!(disk.read(&"a".to_string()), Some(vec![3]));
    assert_eq!(disk.read(&"b".to_string()), Some(vec![2]));
    assert_eq!(disk.read(&"c".to_string()), None);
}

#[test]
fn source_paths_differ_for_packages_and_modules() {
    let leaf = source_module("foo.bar", false, DataLocation::Memory(vec![]));
    let package = source_module("foo.bar", true, DataLocation::Memory(vec![]));
    assert_eq!(leaf.resolve_path("lib"), "lib/foo/bar.py");
    assert_eq!(leaf.resolve_path("lib"), leaf.resolve_path("lib"));
    assert_eq!(package.resolve_path("lib"), "lib/foo/bar/__init__.py");
    assert_eq!(source_module("os", false, DataLocation::Memory(vec![])).resolve_path("lib"), "lib/os.py");
    assert_eq!(source_module("os", false, DataLocation::Memory(vec![])).resolve_path(""), "os.py");
}

#[test]
fn bytecode_paths_carry_optimization_suffix() {
    let module = source_module("foo.bar", false, DataLocation::Memory(vec![]));
    let zero = module.as_bytecode_module(BytecodeOptimizationLevel::Zero);
    let one = module.as_bytecode_module(BytecodeOptimizationLevel::One);
    let two = module.as_bytecode_module(BytecodeOptimizationLevel::Two);
    assert_eq!(zero.resolve_path("lib"), "lib/foo/__pycache__/bar.cpython-37.pyc");
    assert_eq!(one.resolve_path("lib"), "lib/foo/__pycache__/bar.cpython-37.opt-1.pyc");
    assert_eq!(two.resolve_path("lib"), "lib/foo/__pycache__/bar.cpython-37.opt-2.pyc");
    let package = source_module("foo", true, DataLocation::Memory(vec![]));
    assert_eq!(
        package.as_bytecode_module(BytecodeOptimizationLevel::One).resolve_path("lib"),
        "lib/foo/__pycache__/__init__.cpython-37.opt-1.pyc"
    );
    let compiled = PythonModuleBytecode::new("a.b", BytecodeOptimizationLevel::Two, false, "cpython-38", &[1]);
    assert_eq!(compiled.resolve_path("x"), "x/a/__pycache__/b.cpython-38.opt-2.pyc");
}

#[test]
fn extra_tags_and_level_numbers() {
    assert_eq!(BytecodeOptimizationLevel::Zero.to_extra_tag(), "");
    assert_eq!(BytecodeOptimizationLevel::One.to_extra_tag(), ".opt-1");
    assert_eq!(BytecodeOptimizationLevel::Two.to_extra_tag(), ".opt-2");
    assert_eq!(BytecodeOptimizationLevel::try_from(1), Ok(BytecodeOptimizationLevel::One));
    assert_eq!(BytecodeOptimizationLevel::try_from(2), Ok(BytecodeOptimizationLevel::Two));
    assert!(BytecodeOptimizationLevel::try_from(3).is_err());
    assert_eq!(i32::from(BytecodeOptimizationLevel::Two), 2);
    assert_eq!(i32::from(BytecodeOptimizationLevel::Zero), 0);
}

#[test]
fn bytecode_header_is_stripped_from_files() {
    let mut disk = FileSnapshot::new();
    let long: Vec<u8> = (0u8..18).collect();
    disk.insert("/c/long.pyc".to_string(), long);
    disk.insert("/c/short.pyc".to_string(), vec![7; 10]);
    let long_module =
        PythonModuleBytecode::from_path("long", BytecodeOptimizationLevel::Zero, DEFAULT_CACHE_TAG, "/c/long.pyc");
    assert_eq!(long_module.resolve_bytecode(&disk), Ok(vec![16, 17]));
    let short_module =
        PythonModuleBytecode::from_path("short", BytecodeOptimizationLevel::Zero, DEFAULT_CACHE_TAG, "/c/short.pyc");
    assert_eq!(short_module.resolve_bytecode(&disk), Err(ResourceError::BytecodeTooShort));
    let gone = PythonModuleBytecode::from_path("gone", BytecodeOptimizationLevel::Zero, DEFAULT_CACHE_TAG, "/c/gone.pyc");
    assert_eq!(gone.resolve_bytecode(&disk), Err(ResourceError::Io("/c/gone.pyc".to_string())));
    let copy = long_module.to_memory(&disk).unwrap();
    assert_eq!(copy.bytecode, DataLocation::Memory(vec![16, 17]));
    assert_eq!(copy.resolve_bytecode(&FileSnapshot::new()), Ok(vec![16, 17]));
    let in_memory = PythonModuleBytecode::new("m", BytecodeOptimizationLevel::Zero, false, DEFAULT_CACHE_TAG, &[1, 2]);
    assert_eq!(in_memory.resolve_bytecode(&disk), Ok(vec![1, 2]));
}

#[test]
fn package_detected_from_init_file() {
    let package =
        PythonModuleBytecode::from_path("foo", BytecodeOptimizationLevel::Zero, DEFAULT_CACHE_TAG, "/x/foo/__init__.cpython-37.pyc");
    assert!(package.is_package);
    let module = PythonModuleBytecode::from_path("foo", BytecodeOptimizationLevel::Zero, DEFAULT_CACHE_TAG, "/x/__init__/foo.pyc");
    assert!(!module.is_package);
    let mut m = module.clone();
    m.set_bytecode(&[9, 9]);
    assert_eq!(m.bytecode, DataLocation::Memory(vec![9, 9]));
    assert_eq!(m.name, "foo");
}

#[test]
fn package_of_module() {
    assert_eq!(source_module("foo.bar.baz", false, DataLocation::Memory(vec![])).package(), "foo.bar");
    assert_eq!(source_module("foo.bar", true, DataLocation::Memory(vec![])).package(), "foo.bar");
    assert_eq!(source_module("foo", false, DataLocation::Memory(vec![])).package(), "foo");
}

#[test]
fn dunder_file_detection() {
    let mut disk = FileSnapshot::new();
    disk.insert("m.py".to_string(), b"print(__file__)".to_vec());
    let with = source_module("m", false, DataLocation::Path("m.py".to_string()));
    assert_eq!(with.has_dunder_file(&disk), Ok(true));
    let without = source_module("n", false, DataLocation::Memory(b"print(__name__)".to_vec()));
    assert_eq!(without.has_dunder_file(&disk), Ok(false));
    let request = with.as_bytecode_module(BytecodeOptimizationLevel::Zero);
    assert_eq!(request.has_dunder_file(&disk), Ok(true));
    assert_eq!(request.has_dunder_file(&FileSnapshot::new()), Err(ResourceError::Io("m.py".to_string())));
}

#[test]
fn names_and_paths_of_data_resources() {
    let r = PythonPackageResource {
        leaf_package: "foo.bar".to_string(),
        relative_name: "data/x.txt".to_string(),
        data: DataLocation::Memory(vec![]),
        is_stdlib: false,
        is_test: false,
    };
    assert_eq!(r.symbolic_name(), "foo.bar:data/x.txt");
    assert_eq!(r.resolve_path("prefix"), "prefix/foo/bar/data/x.txt");
    assert_eq!(PythonResource::Resource(r).full_name(), "foo.bar.data/x.txt");

    let dist = PythonPackageDistributionResource {
        location: PythonPackageDistributionResourceFlavor::DistInfo,
        package: "foo".to_string(),
        version: "1.0".to_string(),
        name: "METADATA".to_string(),
        data: DataLocation::Memory(vec![]),
    };
    assert_eq!(dist.resolve_path("site"), "site/foo-1.0.dist-info/METADATA");
    let mut egg_info = dist.clone();
    egg_info.location = PythonPackageDistributionResourceFlavor::EggInfo;
    assert_eq!(egg_info.resolve_path("site"), "site/foo-1.0.egg-info/METADATA");
    assert_eq!(PythonResource::DistributionResource(dist).full_name(), "foo:METADATA");
    assert_eq!(PythonResource::EggFile(PythonEggFile { data: DataLocation::Memory(vec![]) }).full_name(), "");
    assert_eq!(
        PythonResource::PathExtension(PythonPathExtension { data: DataLocation::Memory(vec![]) }).full_name(),
        ""
    );
}

#[test]
fn extension_file_layout() {
    let em = extension("foo.bar.baz", None);
    assert_eq!(em.file_name(), "baz.so");
    assert_eq!(em.package_parts(), vec!["foo".to_string(), "bar".to_string()]);
    assert_eq!(em.resolve_path("lib"), "lib/foo/bar/baz.so");
    let top = extension("zlib", None);
    assert_eq!(top.file_name(), "zlib.so");
    assert!(top.package_parts().is_empty());
    assert_eq!(top.resolve_path("lib"), "lib/zlib.so");
    assert!(!top.requires_libraries());
    let mut required = extension("_io", None);
    required.is_stdlib = true;
    required.required = true;
    assert!(required.is_minimally_required());
    required.is_stdlib = false;
    assert!(!required.is_minimally_required());
}

#[test]
fn variant_preference_selects_labelled_variant() {
    let mut variants = PythonExtensionModuleVariants::default();
    variants.push(extension("_ssl", Some("default")));
    variants.push(extension("_ssl", Some("fast")));
    let fast = vec![("_ssl".to_string(), "fast".to_string())];
    assert_eq!(variants.choose_variant(&fast).unwrap().variant, Some("fast".to_string()));
    let missing = vec![("_ssl".to_string(), "missing".to_string())];
    assert_eq!(variants.choose_variant(&missing).unwrap().variant, Some("default".to_string()));
    let other = vec![("_hashlib".to_string(), "fast".to_string())];
    assert_eq!(variants.choose_variant(&other).unwrap().variant, Some("default".to_string()));
    assert_eq!(variants.default_variant().unwrap().variant, Some("default".to_string()));
    assert_eq!(variants.iter().len(), 2);
    assert!(!variants.is_empty());
}

#[test]
fn empty_variant_set_fails() {
    let variants = PythonExtensionModuleVariants::default();
    assert!(variants.is_empty());
    assert_eq!(variants.default_variant().err(), Some(ResourceError::EmptyVariantSet));
    assert_eq!(variants.choose_variant(&vec![]).err(), Some(ResourceError::EmptyVariantSet));
}

#[test]
fn conversions_into_resources() {
    let m = source_module("foo", false, DataLocation::Memory(vec![1]));
    assert_eq!(PythonResource::from(m.clone()), PythonResource::ModuleSource(m));
    let request = source_module("foo", false, DataLocation::Memory(vec![])).as_bytecode_module(BytecodeOptimizationLevel::Two);
    assert_eq!(PythonResource::from(request.clone()), PythonResource::ModuleBytecodeRequest(request));
    let egg = PythonEggFile { data: DataLocation::Memory(vec![2]) };
    assert_eq!(PythonResource::from(egg.clone()), PythonResource::EggFile(egg));
    let request_name = PythonResource::from(PythonModuleBytecodeFromSource {
        name: "x.y".to_string(),
        source: DataLocation::Memory(vec![]),
        optimize_level: BytecodeOptimizationLevel::Zero,
        is_package: false,
        cache_tag: DEFAULT_CACHE_TAG.to_string(),
        is_stdlib: false,
        is_test: false,
    })
    .full_name();
    assert_eq!(request_name, "x.y");
}
