//! Derivation of output paths from input paths.
//!
//! The path-derivation collaborator turns the command line's input files
//! into the ordered (source, destination) pairs the supervision core
//! consumes. A path is modelled as its sequence of components, each a plain
//! string; the caller converts between its platform path type and that
//! model. For each input file the destination is built from the file's stem,
//! an optional suffix, the target extension, and either the file's own
//! directory, a fixed output directory, or — when mirroring recursively —
//! the output directory extended by the input's directory relative to the
//! common ancestor of all inputs.

use vstd::prelude::*;
use vstd::string::*;

verus! {

/// Index of the last `.` that separates a file name from its extension:
/// the last dot at position one or later, or `-1` when there is none. A
/// leading dot marks a hidden file, not an extension.
pub open spec fn last_dot_index(name: Seq<char>) -> int
    decreases name.len(),
{
    if name.len() <= 1 {
        -1
    } else if name[name.len() - 1] == '.' {
        name.len() - 1
    } else {
        last_dot_index(name.drop_last())
    }
}

/// The stem of one file name: everything before the extension separator,
/// or the whole name when it has no extension.
pub open spec fn stem_of(name: Seq<char>) -> Seq<char> {
    if last_dot_index(name) >= 1 {
        name.take(last_dot_index(name))
    } else {
        name
    }
}

/// Compute the stem of one file name.
pub fn file_stem(name: &String) -> (stem: String)
    ensures
        stem@ == stem_of(name@),
{
    let len = name.as_str().unicode_len();
    let mut i = len;
    proof {
        assert(name@.take(len as int) =~= name@);
    }
    while i > 1 && name.as_str().get_char(i - 1) != '.'
        invariant
            0 <= i <= len,
            len == name@.len(),
            last_dot_index(name@) == last_dot_index(name@.take(i as int)),
        decreases i,
    {
        proof {
            assert(name@.take(i as int).drop_last() =~= name@.take(i - 1));
        }
        i = i - 1;
    }
    if i > 1 {
        proof {
            assert(name@.take(i as int).drop_last() =~= name@.take(i - 1));
            assert(last_dot_index(name@) == i - 1);
        }
        String::from_str(name.as_str().substring_char(0, i - 1))
    } else {
        proof {
            if i == 1 {
                assert(name@.take(1int).len() == 1);
            }
            assert(last_dot_index(name@) == -1);
        }
        name.clone()
    }
}

/// Copy a component path.
fn clone_components(path: &Vec<String>) -> (copy: Vec<String>)
    ensures
        copy@ == path@,
{
    let mut copy: Vec<String> = Vec::new();
    let mut i: usize = 0;
    while i < path.len()
        invariant
            0 <= i <= path@.len(),
            copy@ =~= path@.take(i as int),
        decreases path@.len() - i,
    {
        copy.push(path[i].clone());
        i = i + 1;
    }
    proof {
        assert(path@.take(path@.len() as int) =~= path@);
    }
    copy
}

/// The longest shared leading run of components of two paths.
pub open spec fn common_prefix_of(a: Seq<Seq<char>>, b: Seq<Seq<char>>) -> Seq<Seq<char>>
    decreases a.len(),
{
    if a.len() == 0 || b.len() == 0 || a.first() != b.first() {
        Seq::empty()
    } else {
        seq![a.first()] + common_prefix_of(a.drop_first(), b.drop_first())
    }
}

/// The shared run is the first `k` components wherever the two paths agree
/// up to `k` and differ at `k` (or one of them ends there).
proof fn lemma_common_prefix_take(a: Seq<Seq<char>>, b: Seq<Seq<char>>, k: int)
    requires
        0 <= k <= a.len(),
        k <= b.len(),
        forall|j: int| 0 <= j < k ==> a[j] == b[j],
        k < a.len() && k < b.len() ==> a[k] != b[k],
    ensures
        common_prefix_of(a, b) =~= a.take(k),
    decreases k,
{
    if k == 0 {
    } else {
        assert(a.first() == b.first());
        lemma_common_prefix_take(a.drop_first(), b.drop_first(), k - 1);
        assert(a.take(k) =~= seq![a.first()] + a.drop_first().take(k - 1));
    }
}

/// Compute the longest shared leading run of components of two paths.
pub fn common_prefix(a: &Vec<String>, b: &Vec<String>) -> (shared: Vec<String>)
    ensures
        shared.deep_view() =~= common_prefix_of(a.deep_view(), b.deep_view()),
{
    let mut shared: Vec<String> = Vec::new();
    let mut i: usize = 0;
    while i < a.len() && i < b.len() && a[i].eq(&b[i])
        invariant
            0 <= i <= a@.len(),
            i <= b@.len(),
            forall|j: int| 0 <= j < i ==> a.deep_view()[j] == b.deep_view()[j],
            shared@ =~= a@.take(i as int),
        decreases a@.len() - i,
    {
        shared.push(a[i].clone());
        i = i + 1;
    }
    proof {
        lemma_common_prefix_take(a.deep_view(), b.deep_view(), i as int);
        assert(shared.deep_view() =~= a.deep_view().take(i as int));
    }
    shared
}

/// Folding the shared run over a sequence of paths, left to right,
/// starting from `base`.
pub open spec fn common_path_fold(paths: Seq<Seq<Seq<char>>>, base: Seq<Seq<char>>) -> Seq<
    Seq<char>,
>
    decreases paths.len(),
{
    if paths.len() == 0 {
        base
    } else {
        common_prefix_of(common_path_fold(paths.drop_last(), base), paths.last())
    }
}

/// The components every path of the list starts with: the shared leading
/// run of all of them, seeded with the first path. No paths, no answer.
pub open spec fn common_path_of(paths: Seq<Seq<Seq<char>>>) -> Option<Seq<Seq<char>>> {
    if paths.len() == 0 {
        Option::None
    } else {
        Option::Some(common_path_fold(paths.drop_first(), paths.first()))
    }
}

/// Compute the components shared by every path of the list.
pub fn get_common_path(paths: &Vec<Vec<String>>) -> (common: Option<Vec<String>>)
    ensures
        common matches Option::Some(shared) ==> (common_path_of(paths.deep_view()) matches
            Option::Some(model) && shared.deep_view() =~~= model),
        common is Some <==> paths@.len() > 0,
        common is None <==> common_path_of(paths.deep_view()) is None,
{
    if paths.len() == 0 {
        return Option::None;
    }
    let ghost model = paths.deep_view();
    let mut shared = clone_components(&paths[0]);
    let mut i: usize = 1;
    while i < paths.len()
        invariant
            1 <= i <= model.len(),
            model == paths.deep_view(),
            paths@.len() == model.len(),
            shared.deep_view() =~~= common_path_fold(
                model.subrange(1, i as int),
                model.first(),
            ),
        decreases paths@.len() - i,
    {
        shared = common_prefix(&shared, &paths[i]);
        proof {
            assert(model.subrange(1, i + 1).drop_last() =~= model.subrange(1, i as int));
            assert(model.subrange(1, i + 1).last() == model[i as int]);
        }
        i = i + 1;
    }
    proof {
        assert(model.subrange(1, model.len() as int) =~= model.drop_first());
    }
    Option::Some(shared)
}

/// Whether a final component names no file of its own: the current- and
/// parent-directory markers carry no file name, and the empty component is
/// how the caller hands over a name it could not convert to text. None of
/// them has a stem.
pub open spec fn has_no_stem(name: Seq<char>) -> bool {
    name == "."@ || name == ".."@ || name == ""@
}

/// The stem the output file name is built from: the input file's stem, or
/// a fixed label when the path has no components to take it from, or its
/// final component names no file.
pub open spec fn output_label(path: Seq<Seq<char>>) -> Seq<char> {
    if path.len() == 0 || has_no_stem(path.last()) {
        "optimized_image"@
    } else {
        stem_of(path.last())
    }
}

/// The output file name: the label, the optional suffix, and the target
/// extension after a separating dot.
pub open spec fn output_file_name(
    path: Seq<Seq<char>>,
    suffix: Option<Seq<char>>,
    extension: Seq<char>,
) -> Seq<char> {
    match suffix {
        Option::Some(s) => output_label(path) + s + "."@ + extension,
        Option::None => output_label(path) + "."@ + extension,
    }
}

/// A path without its final component; empty paths stay empty.
pub open spec fn parent_of(path: Seq<Seq<char>>) -> Seq<Seq<char>> {
    if path.len() == 0 {
        path
    } else {
        path.drop_last()
    }
}

/// Whether every component of `prefix` starts `path`.
pub open spec fn is_prefix_of(prefix: Seq<Seq<char>>, path: Seq<Seq<char>>) -> bool {
    prefix.len() <= path.len() && path.take(prefix.len() as int) == prefix
}

/// The input's directory relative to the shared ancestor, for recursive
/// mirroring; where the ancestor does not prefix the directory, the whole
/// input path stands in as the relative part.
pub open spec fn relative_to_common(path: Seq<Seq<char>>, common: Seq<Seq<char>>) -> Seq<
    Seq<char>,
> {
    if is_prefix_of(common, parent_of(path)) {
        parent_of(path).skip(common.len() as int)
    } else {
        path
    }
}

/// The directory the output file goes to: the fixed output directory,
/// extended by the mirrored relative directory when one is wanted, or the
/// input's own directory when no output directory is given.
pub open spec fn output_dir(
    path: Seq<Seq<char>>,
    out_dir: Option<Seq<Seq<char>>>,
    common: Option<Seq<Seq<char>>>,
) -> Seq<Seq<char>> {
    match out_dir {
        Option::Some(dir) => match common {
            Option::Some(shared) => dir + relative_to_common(path, shared),
            Option::None => dir,
        },
        Option::None => parent_of(path),
    }
}

/// The full output path for one input file.
pub open spec fn output_path(
    path: Seq<Seq<char>>,
    out_dir: Option<Seq<Seq<char>>>,
    common: Option<Seq<Seq<char>>>,
    suffix: Option<Seq<char>>,
    extension: Seq<char>,
) -> Seq<Seq<char>> {
    output_dir(path, out_dir, common).push(output_file_name(path, suffix, extension))
}

/// Build the output file name for one input file.
fn build_file_name(path: &Vec<String>, suffix: &Option<String>, extension: &String) -> (name:
    String)
    ensures
        name@ == output_file_name(path.deep_view(), suffix.deep_view(), extension@),
{
    let mut name = if path.len() == 0 {
        String::from_str("optimized_image")
    } else {
        proof {
            assert(path.deep_view().last() == path@[path@.len() - 1]@);
        }
        let last = &path[path.len() - 1];
        let current_dir = String::from_str(".");
        let parent_dir = String::from_str("..");
        let unconvertible = String::from_str("");
        if last.eq(&current_dir) || last.eq(&parent_dir) || last.eq(&unconvertible) {
            String::from_str("optimized_image")
        } else {
            file_stem(last)
        }
    };
    if let Option::Some(s) = suffix {
        name.append(s.as_str());
    }
    name.append(".");
    name.append(extension.as_str());
    name
}

/// A path without its final component.
fn parent_components(path: &Vec<String>) -> (parent: Vec<String>)
    ensures
        parent.deep_view() =~~= parent_of(path.deep_view()),
{
    let mut parent = clone_components(path);
    if parent.len() > 0 {
        parent.pop();
    }
    parent
}

/// Whether every component of `prefix` starts `path`.
fn is_prefix(prefix: &Vec<String>, path: &Vec<String>) -> (r: bool)
    ensures
        r == is_prefix_of(prefix.deep_view(), path.deep_view()),
{
    if prefix.len() > path.len() {
        return false;
    }
    let mut j: usize = 0;
    while j < prefix.len()
        invariant
            0 <= j <= prefix@.len() <= path@.len(),
            forall|k: int| 0 <= k < j ==> prefix.deep_view()[k] == path.deep_view()[k],
        decreases prefix@.len() - j,
    {
        if !prefix[j].eq(&path[j]) {
            proof {
                assert(prefix.deep_view()[j as int] == prefix@[j as int]@);
                assert(path.deep_view()[j as int] == path@[j as int]@);
                if is_prefix_of(prefix.deep_view(), path.deep_view()) {
                    assert(path.deep_view().take(prefix.deep_view().len() as int)[j as int]
                        == path.deep_view()[j as int]);
                }
            }
            return false;
        }
        j = j + 1;
    }
    proof {
        assert(path.deep_view().take(prefix.deep_view().len() as int) =~~= prefix.deep_view());
    }
    true
}

/// Extend `dest` by the components of `path` between `from` and `to`.
fn append_range(dest: Vec<String>, path: &Vec<String>, from: usize, to: usize) -> (out: Vec<
    String,
>)
    requires
        from <= to <= path@.len(),
    ensures
        out@ =~= dest@ + path@.subrange(from as int, to as int),
{
    let mut out = dest;
    let mut j = from;
    while j < to
        invariant
            from <= j <= to <= path@.len(),
            out@ =~= dest@ + path@.subrange(from as int, j as int),
        decreases to - j,
    {
        proof {
            assert(path@.subrange(from as int, j + 1) =~= path@.subrange(from as int, j as int)
                .push(path@[j as int]));
        }
        out.push(path[j].clone());
        j = j + 1;
    }
    out
}

/// Build the directory the output file for this input goes to.
fn derive_output_dir(
    path: &Vec<String>,
    out_dir: &Option<Vec<String>>,
    common: &Option<Vec<String>>,
) -> (dir: Vec<String>)
    ensures
        dir.deep_view() =~~= output_dir(path.deep_view(), out_dir.deep_view(), common.deep_view()),
{
    match out_dir {
        Option::Some(d) => match common {
            Option::Some(shared) => {
                let parent = parent_components(path);
                if is_prefix(shared, &parent) {
                    append_range(clone_components(d), &parent, shared.len(), parent.len())
                } else {
                    append_range(clone_components(d), path, 0, path.len())
                }
            },
            Option::None => clone_components(d),
        },
        Option::None => parent_components(path),
    }
}

/// Build the full output path for one input file.
fn derive_output_path(
    path: &Vec<String>,
    out_dir: &Option<Vec<String>>,
    common: &Option<Vec<String>>,
    suffix: &Option<String>,
    extension: &String,
) -> (out: Vec<String>)
    ensures
        out.deep_view() =~~= output_path(
            path.deep_view(),
            out_dir.deep_view(),
            common.deep_view(),
            suffix.deep_view(),
            extension@,
        ),
{
    let mut out = derive_output_dir(path, out_dir, common);
    out.push(build_file_name(path, suffix, extension));
    out
}

/// The shared ancestor the derivation mirrors against: the common path of
/// all inputs when mirroring recursively, none otherwise.
pub open spec fn common_for(files: Seq<Seq<Seq<char>>>, recursive: bool) -> Option<Seq<Seq<char>>> {
    if recursive {
        common_path_of(files)
    } else {
        Option::None
    }
}

/// Pair every input file with its derived output path, in input order.
pub fn get_paths(
    files: Vec<Vec<String>>,
    out_dir: Option<Vec<String>>,
    suffix: Option<String>,
    extension: String,
    recursive: bool,
) -> (pairs: Vec<(Vec<String>, Vec<String>)>)
    ensures
        pairs@.len() == files@.len(),
        forall|i: int| 0 <= i < files@.len() ==> (#[trigger] pairs@[i].0)@ == files@[i]@,
        forall|i: int|
            0 <= i < files@.len() ==> (#[trigger] pairs@[i].1).deep_view() =~~= output_path(
                files.deep_view()[i],
                out_dir.deep_view(),
                common_for(files.deep_view(), recursive),
                suffix.deep_view(),
                extension@,
            ),
{
    let common = if recursive {
        get_common_path(&files)
    } else {
        Option::None
    };
    proof {
        if common is Some {
            assert(common.deep_view() matches Option::Some(s) && common_path_of(files.deep_view())
                matches Option::Some(m) && s == m);
        }
        assert(common.deep_view() == common_for(files.deep_view(), recursive));
    }
    let mut pairs: Vec<(Vec<String>, Vec<String>)> = Vec::new();
    let mut i: usize = 0;
    while i < files.len()
        invariant
            0 <= i <= files@.len(),
            pairs@.len() == i,
            common.deep_view() == common_for(files.deep_view(), recursive),
            forall|j: int| 0 <= j < i ==> (#[trigger] pairs@[j].0)@ == files@[j]@,
            forall|j: int|
                0 <= j < i ==> (#[trigger] pairs@[j].1).deep_view() =~~= output_path(
                    files.deep_view()[j],
                    out_dir.deep_view(),
                    common_for(files.deep_view(), recursive),
                    suffix.deep_view(),
                    extension@,
                ),
        decreases files@.len() - i,
    {
        let source = clone_components(&files[i]);
        let destination = derive_output_path(&files[i], &out_dir, &common, &suffix, &extension);
        proof {
            assert(files[i as int].deep_view() == files.deep_view()[i as int]);
        }
        pairs.push((source, destination));
        i = i + 1;
    }
    pairs
}

} // verus!
