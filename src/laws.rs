//! Properties that relate several operations of the library.

use vstd::prelude::*;

use crate::binary::{find_entry, insert_entry, lemma_find_entry, PrePackagedResource};
use crate::location::{FileSnapshot, LocationModel};
use crate::naming::{lemma_rfind, module_file_path, module_suffix};
use crate::resource::{
    bytecode_tag, chosen_variant_index, extra_tag, first_with_variant, has_variant,
    preferred_variant, BytecodeOptimizationLevel, PythonExtensionModule, PythonResource,
};

verus! {

/// An in-memory copy of a location resolves, under any filesystem, to what
/// the copied location resolved to at the time of copying.
pub proof fn lemma_promoted_location_needs_no_files(
    copy: LocationModel,
    orig: LocationModel,
    disk: FileSnapshot,
    later: FileSnapshot,
)
    requires
        copy.promotes(orig, disk),
    ensures
        copy.content(later) == orig.content(disk),
{
}

/// A resource turned into its in-memory copy can be fully resolved under
/// any filesystem, even one where none of the files it was read from exist.
pub proof fn lemma_memory_copy_needs_no_files(
    copy: PythonResource,
    orig: PythonResource,
    disk: FileSnapshot,
    later: FileSnapshot,
)
    requires
        copy.is_memory_copy_of(&orig, disk),
    ensures
        copy.resolvable(later),
{
    match (copy, orig) {
        (PythonResource::ExtensionModuleDynamicLibrary(c), PythonResource::ExtensionModuleDynamicLibrary(o)) => {
            lemma_extension_copy_needs_no_files(c, o, disk, later);
        },
        (PythonResource::ExtensionModuleStaticallyLinked(c), PythonResource::ExtensionModuleStaticallyLinked(o)) => {
            lemma_extension_copy_needs_no_files(c, o, disk, later);
        },
        _ => {},
    }
}

proof fn lemma_extension_copy_needs_no_files(
    copy: PythonExtensionModule,
    orig: PythonExtensionModule,
    disk: FileSnapshot,
    later: FileSnapshot,
)
    requires
        copy.is_memory_copy_of(&orig, disk),
    ensures
        copy.resolvable(later),
{
    assert forall|i: int| 0 <= i < copy.object_file_data@.len() implies (#[trigger] copy.object_file_data@[i])@.resolvable(
        later,
    ) by {
        assert(copy.object_file_data@[i]@.promotes(orig.object_file_data@[i]@, disk));
    }
    assert forall|i: int| 0 <= i < copy.link_libraries@.len() implies (#[trigger] copy.link_libraries@[i]).resolvable(
        later,
    ) by {
        assert(copy.link_libraries@[i].is_memory_copy_of(&orig.link_libraries@[i], disk));
    }
    match (copy.license_texts, orig.license_texts) {
        (Some(c), Some(o)) => {
            assert forall|i: int| 0 <= i < c@.len() implies (#[trigger] c@[i])@.resolvable(later) by {
                assert(c@[i]@.promotes(o@[i]@, disk));
            }
        },
        _ => {},
    }
}

/// Under the same prefix, a package and a plain module of the same name
/// resolve to different files: the package's file is `__init__` inside a
/// directory named after it.
pub proof fn lemma_package_and_plain_paths_differ(
    root: Seq<char>,
    name: Seq<char>,
    bytecode_tag: Option<Seq<char>>,
)
    requires
        name.len() > 0,
    ensures
        module_file_path(root, name, true, bytecode_tag).len() > module_file_path(
            root,
            name,
            false,
            bytecode_tag,
        ).len(),
        module_file_path(root, name, true, bytecode_tag) != module_file_path(root, name, false, bytecode_tag),
{
    reveal_strlit("/");
    reveal_strlit("__pycache__");
    reveal_strlit("__init__");
    lemma_rfind(name, '.');
    let package_path = module_file_path(root, name, true, bytecode_tag);
    let plain_path = module_file_path(root, name, false, bytecode_tag);
    assert(package_path.len() > plain_path.len());
    assert(package_path != plain_path);
}

/// Bytecode of optimization level 0 is tagged with the cache tag alone;
/// levels 1 and 2 add `.opt-1` and `.opt-2`. The file name ends with the
/// tag and then `.pyc`.
pub proof fn lemma_bytecode_path_tags(
    root: Seq<char>,
    name: Seq<char>,
    is_package: bool,
    cache_tag: Seq<char>,
    level: BytecodeOptimizationLevel,
)
    ensures
        bytecode_tag(cache_tag, BytecodeOptimizationLevel::Zero) == cache_tag,
        bytecode_tag(cache_tag, BytecodeOptimizationLevel::One) == cache_tag + ".opt-1"@,
        bytecode_tag(cache_tag, BytecodeOptimizationLevel::Two) == cache_tag + ".opt-2"@,
        ({
            let path = module_file_path(root, name, is_package, Some(bytecode_tag(cache_tag, level)));
            let ending = "."@ + cache_tag + extra_tag(level) + ".pyc"@;
            path.len() >= ending.len() && path.subrange(path.len() - ending.len(), path.len() as int)
                == ending
        }),
{
    reveal_strlit(".opt-1");
    reveal_strlit(".opt-2");
    assert(cache_tag + seq![] =~= cache_tag);
    assert(".opt-1"@ =~= seq!['.', 'o', 'p', 't', '-', '1']);
    assert(".opt-2"@ =~= seq!['.', 'o', 'p', 't', '-', '2']);
    let tag = bytecode_tag(cache_tag, level);
    let path = module_file_path(root, name, is_package, Some(tag));
    let ending = "."@ + cache_tag + extra_tag(level) + ".pyc"@;
    assert(module_suffix(Some(tag)) =~= ending);
    assert(path.subrange(path.len() - ending.len(), path.len() as int) =~= ending);
}

proof fn lemma_first_with_variant(exts: Seq<PythonExtensionModule>, label: Seq<char>, from: int, i: int)
    requires
        0 <= from <= i < exts.len(),
        has_variant(exts[i], label),
    ensures
        from <= first_with_variant(exts, label, from) <= i,
        has_variant(exts[first_with_variant(exts, label, from)], label),
        forall|j: int| from <= j < first_with_variant(exts, label, from) ==> !has_variant(#[trigger] exts[j], label),
    decreases exts.len() - from,
{
    if !has_variant(exts[from], label) {
        lemma_first_with_variant(exts, label, from + 1, i);
    }
}

proof fn lemma_no_variant(exts: Seq<PythonExtensionModule>, label: Seq<char>, from: int)
    requires
        0 <= from,
        first_with_variant(exts, label, from) < 0,
    ensures
        forall|j: int| from <= j < exts.len() ==> !has_variant(#[trigger] exts[j], label),
    decreases exts.len() - from,
{
    if from < exts.len() {
        lemma_no_variant(exts, label, from + 1);
    }
}

/// The chosen variant is the first one carrying the label that the
/// preferences ask for the default variant's name; when the preferences
/// ask nothing, or ask a label that no variant carries, it is the default.
pub proof fn lemma_variant_choice(exts: Seq<PythonExtensionModule>, preferences: Seq<(String, String)>)
    requires
        exts.len() > 0,
    ensures
        ({
            let k = chosen_variant_index(exts, preferences);
            let wanted = preferred_variant(preferences, exts[0].name@);
            &&& 0 <= k < exts.len()
            &&& (wanted matches Some(label) && exists|i: int|
                0 <= i < exts.len() && #[trigger] has_variant(exts[i], label)) ==> {
                &&& has_variant(exts[k], wanted->Some_0)
                &&& forall|j: int| 0 <= j < k ==> !has_variant(#[trigger] exts[j], wanted->Some_0)
            }
            &&& !(wanted matches Some(label) && exists|i: int|
                0 <= i < exts.len() && #[trigger] has_variant(exts[i], label)) ==> k == 0
        }),
{
    let wanted = preferred_variant(preferences, exts[0].name@);
    if let Some(label) = wanted {
        if exists|i: int| 0 <= i < exts.len() && #[trigger] has_variant(exts[i], label) {
            let i = choose|i: int| 0 <= i < exts.len() && #[trigger] has_variant(exts[i], label);
            lemma_first_with_variant(exts, label, 0, i);
        } else if first_with_variant(exts, label, 0) >= 0 {
            let f = first_with_variant(exts, label, 0);
            assert(0 <= f < exts.len() && has_variant(exts[f], label)) by {
                lemma_first_in_range(exts, label, 0);
            }
        }
    }
}

proof fn lemma_first_in_range(exts: Seq<PythonExtensionModule>, label: Seq<char>, from: int)
    requires
        0 <= from,
        first_with_variant(exts, label, from) >= 0,
    ensures
        from <= first_with_variant(exts, label, from) < exts.len(),
        has_variant(exts[first_with_variant(exts, label, from)], label),
    decreases exts.len() - from,
{
    if from < exts.len() && !has_variant(exts[from], label) {
        lemma_first_in_range(exts, label, from + 1);
    }
}

/// Adding two resources under the same name leaves exactly one entry of
/// that name, holding the second one; no other entry changes.
pub proof fn lemma_second_addition_wins(
    entries: Seq<(Seq<char>, PrePackagedResource)>,
    name: Seq<char>,
    first: PrePackagedResource,
    second: PrePackagedResource,
)
    requires
        forall|i: int, j: int| 0 <= i < j < entries.len() ==> #[trigger] entries[i].0 != #[trigger] entries[j].0,
    ensures
        ({
            let after = insert_entry(insert_entry(entries, name, first), name, second);
            let k = find_entry(after, name);
            &&& 0 <= k < after.len()
            &&& after[k] == (name, second)
            &&& forall|j: int| 0 <= j < after.len() && j != k ==> (#[trigger] after[j]).0 != name
            &&& forall|j: int|
                0 <= j < entries.len() && entries[j].0 != name ==> #[trigger] after[j] == entries[j]
        }),
{
    let once = insert_entry(entries, name, first);
    lemma_find_entry(entries, name);
    lemma_find_entry(once, name);
    let after = insert_entry(once, name, second);
    lemma_find_entry(after, name);
    let k0 = find_entry(entries, name);
    let k1 = find_entry(once, name);
    if k0 < 0 {
        assert(once[entries.len() as int].0 == name);
    } else {
        assert(once[k0].0 == name);
    }
    assert(k1 >= 0);
    assert(forall|j: int| 0 <= j < once.len() && j != k1 ==> (#[trigger] once[j]).0 != name) by {
        if k0 < 0 {
            assert(k1 == entries.len());
        } else {
            assert(k1 == k0) by {
                if k1 != k0 {
                    assert(once[k1].0 == name);
                    assert(entries[k1].0 == name);
                }
            }
        }
    }
    let k = find_entry(after, name);
    assert(after[k1] == (name, second));
    assert(k == k1) by {
        if k != k1 {
            assert(after[k].0 == name);
            assert(once[k].0 == name);
        }
    }
}

} // verus!
