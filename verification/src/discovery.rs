//! Recognizing a Codex data directory.

use vstd::prelude::*;

verus! {

/// How a marker entry must exist: as a directory or as a file.
#[derive(Clone, Copy, Debug, PartialEq, Eq, Structural)]
pub enum EntryKind {
    Directory,
    File,
}

/// The entries whose presence marks a Codex directory, in the order they
/// are looked at: a `sessions` folder, a `history.jsonl` file and a
/// `session_index.jsonl` file.
pub open spec fn codex_markers_spec() -> Seq<(Seq<char>, EntryKind)> {
    seq![
        ("sessions"@, EntryKind::Directory),
        ("history.jsonl"@, EntryKind::File),
        ("session_index.jsonl"@, EntryKind::File),
    ]
}

/// A single path component: not empty, not `.` or `..`, with no separator
/// and no drive colon.
pub open spec fn plain_entry_name(name: Seq<char>) -> bool {
    &&& name.len() > 0
    &&& name != seq!['.']
    &&& name != seq!['.', '.']
    &&& forall|j: int| 0 <= j < name.len() ==> name[j] != '/' && name[j] != '\\' && name[j] != ':'
}

/// A path with a `?` in it; only such a path can carry a Windows verbatim
/// prefix (`\\?\`), under which joining rewrites the whole path.
pub open spec fn may_be_verbatim(path: Seq<char>) -> bool {
    exists|j: int| 0 <= j < path.len() && path[j] == '?'
}

/// `child` names the entry `name` inside `parent`: it ends with the entry's
/// name and, unless the parent may carry a verbatim prefix, starts with the
/// parent's text.
pub open spec fn names_child(child: Seq<char>, parent: Seq<char>, name: Seq<char>) -> bool {
    &&& child.len() >= name.len()
    &&& child.subrange(child.len() - name.len(), child.len() as int) == name
    &&& !may_be_verbatim(parent) ==> child.len() >= parent.len() + name.len() && child.subrange(
        0,
        parent.len() as int,
    ) == parent
}

/// The marker entries of a Codex directory.
pub fn codex_home_markers() -> (markers: Vec<(&'static str, EntryKind)>)
    ensures
        markers@.len() == codex_markers_spec().len(),
        forall|i: int|
            0 <= i < markers@.len() ==> (#[trigger] markers@[i]).0@ == codex_markers_spec()[i].0
                && markers@[i].1 == codex_markers_spec()[i].1 && plain_entry_name(markers@[i].0@),
{
    proof {
        reveal_strlit("sessions");
        reveal_strlit("history.jsonl");
        reveal_strlit("session_index.jsonl");
    }
    let mut markers: Vec<(&'static str, EntryKind)> = Vec::new();
    markers.push(("sessions", EntryKind::Directory));
    markers.push(("history.jsonl", EntryKind::File));
    markers.push(("session_index.jsonl", EntryKind::File));
    assert(markers@[0].0@.len() == 8 && markers@[1].0@.len() == 13 && markers@[2].0@.len() == 19);
    assert(seq!['.'].len() == 1 && seq!['.', '.'].len() == 2);
    markers
}

/// What the file system showed of one marker entry: its name and kind, the
/// path that was looked at, and whether an entry of that kind is there.
#[derive(Debug)]
pub struct MarkerAnswer {
    pub name: &'static str,
    pub kind: EntryKind,
    pub path: String,
    pub present: bool,
}

/// What the file system shows of a candidate Codex directory: whether it is
/// a directory and, only when it is, the answers for its marker entries.
#[derive(Debug)]
pub struct HomeProbe {
    pub is_dir: bool,
    pub markers: Vec<MarkerAnswer>,
}

/// A Codex directory is a directory in which at least one marker entry is
/// present.
pub open spec fn looks_like_codex_home(p: HomeProbe) -> bool {
    p.is_dir && exists|i: int| 0 <= i < p.markers@.len() && (#[trigger] p.markers@[i]).present
}

/// Whether what was seen of a directory makes it a Codex directory.
pub fn codex_home_layout(p: &HomeProbe) -> (r: bool)
    ensures
        r == looks_like_codex_home(*p),
{
    if !p.is_dir {
        return false;
    }
    let mut i: usize = 0;
    while i < p.markers.len()
        invariant
            p.is_dir,
            i <= p.markers@.len(),
            forall|j: int| 0 <= j < i ==> !(#[trigger] p.markers@[j]).present,
        decreases p.markers@.len() - i,
    {
        if p.markers[i].present {
            assert(p.markers@[i as int].present);
            return true;
        }
        i += 1;
    }
    false
}

/// The path of the entry `name` inside `path`.
///
/// Trusted: calls std's `Path::join`. Its documentation says the result is
/// `path` with `name` adjoined, and that under a Windows verbatim prefix
/// (`\\?\`) the new path is normalized, its `.` and `..` removed. For a single
/// component `name` that is neither `.` nor `..`, the result therefore ends
/// with `name`; it starts with `path` unless `path` may carry a verbatim
/// prefix. Which separator is put between them is not stated.
#[verifier::external_body]
fn join_child(path: &str, name: &str) -> (child: String)
    requires
        plain_entry_name(name@),
    ensures
        names_child(child@, path@, name@),
{
    std::path::Path::new(path).join(name).to_string_lossy().into_owned()
}

/// Whether `path` is a directory.
///
/// Trusted: calls std's `Path::is_dir`, which asks the file system; nothing
/// is claimed of the answer.
#[verifier::external_body]
fn path_is_dir(path: &str) -> bool {
    std::path::Path::new(path).is_dir()
}

/// Whether `path` is a file.
///
/// Trusted: calls std's `Path::is_file`, which asks the file system; nothing
/// is claimed of the answer.
#[verifier::external_body]
fn path_is_file(path: &str) -> bool {
    std::path::Path::new(path).is_file()
}

/// Looks at `path` in the file system. The marker entries are looked at
/// only when `path` is a directory, and then each of them, in order, at the
/// path that names it inside `path`. What the file system answers is not
/// stated: it depends on the disk at the moment of the call, not on `path`
/// alone.
pub fn probe_codex_home(path: &str) -> (p: HomeProbe)
    ensures
        !p.is_dir ==> p.markers@.len() == 0,
        p.is_dir ==> p.markers@.len() == codex_markers_spec().len(),
        forall|i: int|
            0 <= i < p.markers@.len() ==> (#[trigger] p.markers@[i]).name@ == codex_markers_spec()[i].0
                && p.markers@[i].kind == codex_markers_spec()[i].1 && names_child(
                p.markers@[i].path@,
                path@,
                p.markers@[i].name@,
            ),
{
    let mut answers: Vec<MarkerAnswer> = Vec::new();
    if !path_is_dir(path) {
        return HomeProbe { is_dir: false, markers: answers };
    }
    let markers = codex_home_markers();
    for i in 0..markers.len()
        invariant
            markers@.len() == codex_markers_spec().len(),
            forall|k: int|
                0 <= k < markers@.len() ==> (#[trigger] markers@[k]).0@ == codex_markers_spec()[k].0
                    && markers@[k].1 == codex_markers_spec()[k].1 && plain_entry_name(markers@[k].0@),
            answers@.len() == i,
            forall|k: int|
                0 <= k < i ==> (#[trigger] answers@[k]).name@ == codex_markers_spec()[k].0
                    && answers@[k].kind == codex_markers_spec()[k].1 && names_child(
                    answers@[k].path@,
                    path@,
                    answers@[k].name@,
                ),
    {
        let (name, kind) = markers[i];
        let child = join_child(path, name);
        let present = match kind {
            EntryKind::Directory => path_is_dir(child.as_str()),
            EntryKind::File => path_is_file(child.as_str()),
        };
        answers.push(MarkerAnswer { name, kind, path: child, present });
    }
    HomeProbe { is_dir: true, markers: answers }
}

/// Whether `path` is a Codex data directory, as the file system shows it
/// now: the answer of `codex_home_layout` on what `probe_codex_home` saw.
/// The answer is not stated: it depends on the disk, and two calls on the
/// same path may differ.
pub fn is_codex_home(path: &str) -> bool {
    let probe = probe_codex_home(path);
    codex_home_layout(&probe)
}

} // verus!
