//! Naming conventions of the Python import system: dotted module names,
//! the packages that contain them, and the files they resolve to.

use vstd::prelude::*;

verus! {

/// Index of the last occurrence of `c` in `s`, or -1 when there is none.
pub open spec fn rfind(s: Seq<char>, c: char) -> int
    decreases s.len(),
{
    if s.len() == 0 {
        -1
    } else if s.last() == c {
        s.len() - 1
    } else {
        rfind(s.drop_last(), c)
    }
}

pub proof fn lemma_rfind(s: Seq<char>, c: char)
    ensures
        -1 <= rfind(s, c) < s.len(),
        rfind(s, c) >= 0 ==> s[rfind(s, c)] == c,
        forall|j: int| rfind(s, c) < j < s.len() ==> s[j] != c,
    decreases s.len(),
{
    if s.len() > 0 && s.last() != c {
        lemma_rfind(s.drop_last(), c);
        assert forall|j: int| rfind(s, c) < j < s.len() implies s[j] != c by {
            if j < s.len() - 1 {
                assert(s.drop_last()[j] == s[j]);
            }
        }
    }
}

/// The pieces of `s` between occurrences of `c`; one piece when `c` does
/// not occur.
pub open spec fn split_on(s: Seq<char>, c: char) -> Seq<Seq<char>>
    decreases s.len(),
{
    let k = rfind(s, c);
    if 0 <= k < s.len() {
        split_on(s.take(k), c).push(s.skip(k + 1))
    } else {
        seq![s]
    }
}

/// The name of the package directly containing module `name` (everything
/// before the last dot); meaningful when `name` has a dot.
pub open spec fn parent_name(name: Seq<char>) -> Seq<char> {
    name.take(rfind(name, '.'))
}

/// The last dotted segment of `name`; all of `name` when it has no dot.
pub open spec fn last_segment(name: Seq<char>) -> Seq<char> {
    name.skip(rfind(name, '.') + 1)
}

/// Whether `name` has at least one dot.
pub open spec fn is_dotted(name: Seq<char>) -> bool {
    rfind(name, '.') >= 0
}

/// `name` with each dot replaced by a path separator.
pub open spec fn slashed(name: Seq<char>) -> Seq<char> {
    Seq::new(name.len(), |i: int| if name[i] == '.' { '/' } else { name[i] })
}

/// `seg` appended to the path `base` as one more component.
pub open spec fn join(base: Seq<char>, seg: Seq<char>) -> Seq<char> {
    if base.len() == 0 {
        seg
    } else {
        base + "/"@ + seg
    }
}

/// Whether `p` names a package that contains module `name`: a proper
/// prefix of `name` that ends right before a dot.
pub open spec fn is_package_prefix(name: Seq<char>, p: Seq<char>) -> bool {
    &&& p.len() < name.len()
    &&& name[p.len() as int] == '.'
    &&& name.take(p.len() as int) == p
}

/// Whether module `name` is `package` itself or lies inside it.
pub open spec fn is_within_package(name: Seq<char>, package: Seq<char>) -> bool {
    name == package || is_package_prefix(name, package)
}

/// The directory holding the file of module `name` under `root`.
pub open spec fn module_dir(root: Seq<char>, name: Seq<char>, is_package: bool) -> Seq<char> {
    if is_package {
        join(root, slashed(name))
    } else if is_dotted(name) {
        join(root, slashed(parent_name(name)))
    } else {
        root
    }
}

/// The file name suffix of a module: `.py` for source, `.<tag>.pyc` for
/// bytecode carrying tag `tag`.
pub open spec fn module_suffix(bytecode_tag: Option<Seq<char>>) -> Seq<char> {
    match bytecode_tag {
        Some(t) => "."@ + t + ".pyc"@,
        None => ".py"@,
    }
}

/// The path of the file of module `name` under `root`: dotted segments
/// become directories, a package lives in its own directory as
/// `__init__`, and bytecode goes into a `__pycache__` directory.
pub open spec fn module_file_path(
    root: Seq<char>,
    name: Seq<char>,
    is_package: bool,
    bytecode_tag: Option<Seq<char>>,
) -> Seq<char> {
    let dir = module_dir(root, name, is_package);
    let dir = if bytecode_tag is Some {
        join(dir, "__pycache__"@)
    } else {
        dir
    };
    let base = if is_package {
        "__init__"@
    } else {
        last_segment(name)
    };
    join(dir, base + module_suffix(bytecode_tag))
}

/// The last component of a `/`-separated path.
pub open spec fn path_file_name(path: Seq<char>) -> Seq<char> {
    path.skip(rfind(path, '/') + 1)
}

/// Whether the file at `path` is the `__init__` file of a package.
pub open spec fn is_package_path(path: Seq<char>) -> bool {
    let f = path_file_name(path);
    f.len() >= 9 && f.take(9) == "__init__."@
}

/// Position of the last `c` in `s`.
pub fn rfind_char(s: &str, c: char) -> (r: Option<usize>)
    ensures
        match r {
            Some(k) => k == rfind(s@, c),
            None => rfind(s@, c) == -1,
        },
{
    let n = s.unicode_len();
    let mut i: usize = n;
    assert(s@.take(n as int) =~= s@);
    while i > 0
        invariant
            i <= s@.len(),
            rfind(s@.take(i as int), c) == rfind(s@, c),
        decreases i,
    {
        assert(s@.take(i as int).drop_last() =~= s@.take(i - 1));
        if s.get_char(i - 1) == c {
            return Some(i - 1);
        }
        i = i - 1;
    }
    None
}

/// An owned copy of the characters `from..to` of `s`.
fn substring(s: &str, from: usize, to: usize) -> (r: String)
    requires
        from <= to <= s@.len(),
    ensures
        r@ == s@.subrange(from as int, to as int),
{
    String::from_str(s.substring_char(from, to))
}

/// The pieces of `s` between occurrences of `c`.
pub fn split_on_char(s: &str, c: char) -> (r: Vec<String>)
    ensures
        r.deep_view() == split_on(s@, c),
    decreases s@.len(),
{
    proof {
        lemma_rfind(s@, c);
    }
    let n = s.unicode_len();
    match rfind_char(s, c) {
        None => {
            let mut v: Vec<String> = Vec::new();
            v.push(String::from_str(s));
            assert(v.deep_view() =~= seq![s@]);
            v
        },
        Some(k) => {
            let head = s.substring_char(0, k);
            assert(head@ =~= s@.take(k as int));
            let mut v = split_on_char(head, c);
            let ghost before = v.deep_view();
            v.push(substring(s, k + 1, n));
            assert(s@.subrange(k + 1, n as int) =~= s@.skip(k + 1));
            assert(v.deep_view() =~= before.push(s@.skip(k + 1)));
            v
        },
    }
}

/// `name` with each dot replaced by a path separator.
pub fn slashed_name(name: &str) -> (r: String)
    ensures
        r@ == slashed(name@),
{
    let n = name.unicode_len();
    let mut out = String::new();
    proof {
        reveal_strlit("/");
    }
    for i in 0..n
        invariant
            n == name@.len(),
            out@ =~= slashed(name@.take(i as int)),
    {
        let ghost mapped = if name@[i as int] == '.' {
            '/'
        } else {
            name@[i as int]
        };
        assert(slashed(name@.take(i + 1)) =~= slashed(name@.take(i as int)).push(mapped));
        if name.get_char(i) == '.' {
            proof {
                reveal_strlit("/");
            }
            assert("/"@ =~= seq![mapped]);
            out.append("/");
        } else {
            let one = name.substring_char(i, i + 1);
            assert(one@ =~= seq![mapped]);
            out.append(one);
        }
    }
    assert(name@.take(n as int) =~= name@);
    out
}

/// `seg` appended to the path `base` as one more component.
pub fn join_path(base: &str, seg: &str) -> (r: String)
    ensures
        r@ == join(base@, seg@),
{
    let mut out = String::from_str(base);
    if base.unicode_len() > 0 {
        out.append("/");
    }
    out.append(seg);
    out
}

/// The names of all packages that contain module `name`: each prefix of
/// `name` that ends right before a dot.
pub fn packages_from_module_name(name: &str) -> (r: Vec<String>)
    ensures
        forall|p: Seq<char>|
            is_package_prefix(name@, p) <==> exists|k: int| 0 <= k < r.len() && #[trigger] r@[k]@ == p,
{
    let n = name.unicode_len();
    let mut out: Vec<String> = Vec::new();
    for i in 0..n
        invariant
            n == name@.len(),
            forall|k: int| 0 <= k < out.len() ==> is_package_prefix(name@, #[trigger] out@[k]@),
            forall|j: int|
                0 <= j < i && name@[j] == '.' ==> exists|k: int|
                    0 <= k < out.len() && #[trigger] out@[k]@ == name@.take(j),
    {
        let ghost old_out = out@;
        if name.get_char(i) == '.' {
            let p = substring(name, 0, i);
            assert(p@ =~= name@.take(i as int));
            out.push(p);
        }
        assert forall|j: int| 0 <= j < i + 1 && name@[j] == '.' implies exists|k: int|
            0 <= k < out.len() && #[trigger] out@[k]@ == name@.take(j) by {
            if j < i {
                let k0 = choose|k: int| 0 <= k < old_out.len() && #[trigger] old_out[k]@ == name@.take(j);
                assert(out@[k0] == old_out[k0]);
            } else {
                assert(out@[out.len() - 1]@ == name@.take(j));
            }
        }
    }
    assert forall|p: Seq<char>| is_package_prefix(name@, p) implies exists|k: int|
        0 <= k < out.len() && #[trigger] out@[k]@ == p by {
        assert(name@[p.len() as int] == '.');
    }
    out
}

/// Whether `v` holds a string equal to `s`.
pub fn contains_string(v: &Vec<String>, s: &String) -> (r: bool)
    ensures
        r == exists|k: int| 0 <= k < v.len() && #[trigger] v@[k]@ == s@,
{
    for i in 0..v.len()
        invariant
            forall|k: int| 0 <= k < i ==> #[trigger] v@[k]@ != s@,
    {
        if v[i] == *s {
            return true;
        }
    }
    false
}

/// Whether module `name` is `package` itself or lies inside it.
pub fn is_name_within_package(name: &String, package: &String) -> (r: bool)
    ensures
        r == is_within_package(name@, package@),
{
    if *name == *package {
        return true;
    }
    let prefixes = packages_from_module_name(name.as_str());
    contains_string(&prefixes, package)
}

/// The path of the file of module `name` under `root`, for source when
/// `bytecode_tag` is `None` and for bytecode carrying that tag otherwise.
pub fn resolve_path_for_module(root: &str, name: &str, is_package: bool, bytecode_tag: Option<&str>) -> (r:
    String)
    ensures
        r@ == module_file_path(
            root@,
            name@,
            is_package,
            match bytecode_tag {
                Some(t) => Some(t@),
                None => None,
            },
        ),
{
    proof {
        lemma_rfind(name@, '.');
    }
    let n = name.unicode_len();
    let dot = rfind_char(name, '.');
    let mut dir = if is_package {
        join_path(root, slashed_name(name).as_str())
    } else {
        match dot {
            Some(k) => {
                let parent = name.substring_char(0, k);
                assert(parent@ =~= parent_name(name@));
                join_path(root, slashed_name(parent).as_str())
            },
            None => String::from_str(root),
        }
    };
    if bytecode_tag.is_some() {
        dir = join_path(dir.as_str(), "__pycache__");
    }
    let mut base = if is_package {
        String::from_str("__init__")
    } else {
        match dot {
            Some(k) => {
                let b = substring(name, k + 1, n);
                assert(b@ =~= last_segment(name@));
                b
            },
            None => {
                assert(name@.skip(0) =~= name@);
                String::from_str(name)
            },
        }
    };
    match bytecode_tag {
        Some(t) => {
            base.append(".");
            base.append(t);
            base.append(".pyc");
        },
        None => {
            base.append(".py");
        },
    }
    join_path(dir.as_str(), base.as_str())
}

/// Whether the file at `path` is the `__init__` file of a package.
pub fn is_package_from_path(path: &str) -> (r: bool)
    ensures
        r == is_package_path(path@),
{
    proof {
        lemma_rfind(path@, '/');
        reveal_strlit("__init__.");
    }
    let n = path.unicode_len();
    let start = match rfind_char(path, '/') {
        Some(k) => k + 1,
        None => 0,
    };
    let ghost f = path_file_name(path@);
    assert(f =~= path@.subrange(start as int, n as int));
    if n - start < 9 {
        return false;
    }
    let marker = "__init__.";
    for i in 0..9
        invariant
            start + 9 <= n == path@.len(),
            f == path@.subrange(start as int, n as int),
            f == path_file_name(path@),
            marker@ == "__init__."@,
            marker@.len() == 9,
            forall|j: int| 0 <= j < i ==> f[j] == marker@[j],
    {
        if path.get_char(start + i) != marker.get_char(i) {
            assert(f.take(9)[i as int] != "__init__."@[i as int]);
            return false;
        }
    }
    assert(f.take(9) =~= "__init__."@);
    true
}

} // verus!
