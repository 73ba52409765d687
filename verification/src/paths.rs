//! Where the tool keeps its files: everything lives under
//! `<temp>/flashtool/pyenv`, with the Python runtime in `python312/`.
//!
//! A path is kept as its root and the components joined onto it; turning it
//! into an operating-system path is left to the caller.

use vstd::prelude::*;

verus! {

/// A path: a root followed by components, each joined as `Path::join` would.
#[derive(Debug)]
pub struct FsPath {
    pub root: String,
    pub parts: Vec<String>,
}

impl View for FsPath {
    type V = (Seq<char>, Seq<Seq<char>>);

    open spec fn view(&self) -> Self::V {
        (self.root@, self.parts.deep_view())
    }
}

impl FsPath {
    /// The path made of `root` alone.
    pub fn from_root(root: &str) -> (r: FsPath)
        ensures
            r@ == (root@, Seq::<Seq<char>>::empty()),
    {
        let r = FsPath { root: String::from_str(root), parts: Vec::new() };
        assert(r.parts.deep_view() =~= Seq::<Seq<char>>::empty());
        r
    }

    /// A copy of this path.
    pub fn duplicate(&self) -> (r: FsPath)
        ensures
            r@ == self@,
    {
        let mut parts: Vec<String> = Vec::new();
        let n = self.parts.len();
        let mut i: usize = 0;
        while i < n
            invariant
                n == self.parts@.len(),
                i <= n,
                parts.deep_view() == self.parts.deep_view().subrange(0, i as int),
            decreases n - i,
        {
            let ghost before = parts.deep_view();
            parts.push(self.parts[i].clone());
            assert(parts.deep_view() =~= before.push(self.parts.deep_view()[i as int]));
            assert(self.parts.deep_view().subrange(0, i + 1) =~= self.parts.deep_view().subrange(
                0,
                i as int,
            ).push(self.parts.deep_view()[i as int]));
            i = i + 1;
        }
        assert(self.parts.deep_view().subrange(0, n as int) =~= self.parts.deep_view());
        FsPath { root: self.root.clone(), parts }
    }

    /// This path with `part` joined on.
    pub fn join(self, part: &str) -> (r: FsPath)
        ensures
            r@ == (self@.0, self@.1.push(part@)),
    {
        let FsPath { root, parts } = self;
        let ghost before = parts.deep_view();
        let mut parts = parts;
        parts.push(String::from_str(part));
        assert(parts.deep_view() =~= before.push(part@));
        FsPath { root, parts }
    }
}

/// The layout of the tool's directory under a temp root.
pub open spec fn spec_base_dir(temp_root: Seq<char>) -> (Seq<char>, Seq<Seq<char>>) {
    (temp_root, seq!["flashtool"@, "pyenv"@])
}

/// The directory the Python runtime is extracted into.
pub open spec fn spec_py_dir(temp_root: Seq<char>) -> (Seq<char>, Seq<Seq<char>>) {
    (temp_root, spec_base_dir(temp_root).1.push("python312"@))
}

/// A path separator on either platform the tool runs on.
pub open spec fn is_separator(c: char) -> bool {
    c == '/' || c == '\\'
}

/// A single plain path component: not empty, not `.` or `..`, and without
/// separators or `:` (which on Windows starts a drive prefix).
pub open spec fn is_plain_component(name: Seq<char>) -> bool {
    &&& name.len() > 0
    &&& name != seq!['.']
    &&& name != seq!['.', '.']
    &&& forall|i: int| 0 <= i < name.len() ==> !is_separator(#[trigger] name[i]) && name[i] != ':'
}

/// `p` lies at or below `dir`: same root, and `dir`'s components start `p`'s.
pub open spec fn is_within(p: (Seq<char>, Seq<Seq<char>>), dir: (Seq<char>, Seq<Seq<char>>)) -> bool {
    p.0 == dir.0 && dir.1.len() <= p.1.len() && p.1.subrange(0, dir.1.len() as int) == dir.1
}

/// Everything the tool keeps lies within `<temp>/flashtool/pyenv`: the Python
/// directory, the interpreter and the marker within the Python directory, and
/// `mtk.py` and the loaders directory beside it, with each loader (a plain
/// file name) inside that.
pub proof fn lemma_layout_stays_within_base_dir(temp_root: Seq<char>)
    ensures
        is_within(spec_py_dir(temp_root), spec_base_dir(temp_root)),
        is_within(
            (temp_root, spec_py_dir(temp_root).1.push("python.exe"@)),
            spec_py_dir(temp_root),
        ),
        is_within(
            (temp_root, spec_py_dir(temp_root).1.push(".flashtool-pyver"@)),
            spec_py_dir(temp_root),
        ),
        is_within(
            (temp_root, spec_base_dir(temp_root).1.push("mtk.py"@)),
            spec_base_dir(temp_root),
        ),
        forall|name: Seq<char>|
            is_plain_component(name) ==> is_within(
                (temp_root, #[trigger] spec_base_dir(temp_root).1.push("loaders"@).push(name)),
                spec_base_dir(temp_root),
            ),
{
    let base = spec_base_dir(temp_root).1;
    let py = spec_py_dir(temp_root).1;
    assert(py.subrange(0, 2) =~= base);
    assert(py.push("python.exe"@).subrange(0, 3) =~= py);
    assert(py.push(".flashtool-pyver"@).subrange(0, 3) =~= py);
    assert(base.push("mtk.py"@).subrange(0, 2) =~= base);
    assert forall|name: Seq<char>|
        is_plain_component(name) implies is_within(
            (temp_root, #[trigger] base.push("loaders"@).push(name)),
            spec_base_dir(temp_root),
        ) by {
        assert(base.push("loaders"@).push(name).subrange(0, 2) =~= base);
    }
}

/// The temp root on Windows: `%TEMP%` when set, else `%TMP%`, else `C:\Temp`.
/// The caller reads the two variables (`None` when unset or not Unicode).
pub fn windows_temp_root(temp: Option<String>, tmp: Option<String>) -> (r: String)
    ensures
        match (temp, tmp) {
            (Some(t), _) => r@ == t@,
            (None, Some(t)) => r@ == t@,
            (None, None) => r@ == "C:\\Temp"@,
        },
{
    match temp {
        Some(t) => t,
        None => match tmp {
            Some(t) => t,
            None => String::from_str("C:\\Temp"),
        },
    }
}

/// Returns the base extraction directory `<temp_root>/flashtool/pyenv`.
/// The caller picks `temp_root`: `%TEMP%` (else `%TMP%`, else `C:\Temp`) on
/// Windows, `/tmp` elsewhere.
pub fn base_dir(temp_root: &str) -> (r: FsPath)
    ensures
        r@ == spec_base_dir(temp_root@),
{
    FsPath::from_root(temp_root).join("flashtool").join("pyenv")
}

/// Returns the path to the extracted Python 3.12 directory.
pub fn py_dir(temp_root: &str) -> (r: FsPath)
    ensures
        r@ == spec_py_dir(temp_root@),
{
    base_dir(temp_root).join("python312")
}

/// Returns the path to `python.exe` inside the extracted environment.
pub fn python_exe(temp_root: &str) -> (r: FsPath)
    ensures
        r@ == (temp_root@, spec_py_dir(temp_root@).1.push("python.exe"@)),
{
    py_dir(temp_root).join("python.exe")
}

/// Returns the path where `mtk.py` is extracted.
pub fn mtk_py_path(temp_root: &str) -> (r: FsPath)
    ensures
        r@ == (temp_root@, spec_base_dir(temp_root@).1.push("mtk.py"@)),
{
    base_dir(temp_root).join("mtk.py")
}

/// Returns the path of the version-marker file inside the Python directory.
pub fn marker_path(temp_root: &str) -> (r: FsPath)
    ensures
        r@ == (temp_root@, spec_py_dir(temp_root@).1.push(".flashtool-pyver"@)),
{
    py_dir(temp_root).join(".flashtool-pyver")
}

/// Returns the directory that extracted loaders are written to.
pub fn loader_dir(temp_root: &str) -> (r: FsPath)
    ensures
        r@ == (temp_root@, spec_base_dir(temp_root@).1.push("loaders"@)),
{
    base_dir(temp_root).join("loaders")
}

} // verus!
