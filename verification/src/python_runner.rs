//! The bundled Python 3.12 runtime: whether the embedded asset is usable,
//! whether an earlier extraction is current, and what a probe of the
//! extracted interpreter found.

use vstd::prelude::*;
use crate::commands::CommandOutput;
use crate::error::Error;
use crate::paths::{
    FsPath,
    base_dir,
    marker_path,
    mtk_py_path,
    spec_base_dir,
    spec_py_dir,
};
use crate::text::{contains_str, from_utf8_lossy, is_substring, trim, trimmed, utf8_lossy};

verus! {

/// The message given when the embedded runtime is only the placeholder that
/// the repository ships.
pub open spec fn placeholder_message(version: Seq<char>) -> Seq<char> {
    "the bundled Python runtime ("@ + version + ") is a placeholder; generate it with scripts/build_py312_zip.ps1 and rebuild"@
}

/// The refusal of a placeholder runtime names the problem and the way out:
/// its message mentions `placeholder` and the `build_py312_zip` script.
pub proof fn lemma_placeholder_message_names_build_script(version: Seq<char>)
    ensures
        is_substring("placeholder"@, placeholder_message(version)),
        is_substring("build_py312_zip"@, placeholder_message(version)),
{
    let head = "the bundled Python runtime ("@;
    let tail = ") is a placeholder; generate it with scripts/build_py312_zip.ps1 and rebuild"@;
    reveal_strlit("the bundled Python runtime (");
    reveal_strlit(
        ") is a placeholder; generate it with scripts/build_py312_zip.ps1 and rebuild",
    );
    reveal_strlit("placeholder");
    reveal_strlit("build_py312_zip");
    let m = placeholder_message(version);
    let at: int = (head.len() + version.len()) as int;
    assert(m.subrange(at + 7, at + 7 + 11) =~= "placeholder"@);
    assert(m.subrange(at + 45, at + 45 + 15) =~= "build_py312_zip"@);
}

/// Checks the version string of the embedded runtime before anything is
/// extracted: a placeholder asset (its version names itself `placeholder`)
/// is refused with a `PythonEnv` error that points to the build script.
pub fn check_runtime_asset(version: &str) -> (r: Result<(), Error>)
    ensures
        is_substring("placeholder"@, version@) ==> (r matches Err(Error::PythonEnv(m)) && m@
            == placeholder_message(version@)),
        !is_substring("placeholder"@, version@) ==> r is Ok,
{
    if contains_str(version, "placeholder") {
        let mut m = String::from_str("the bundled Python runtime (");
        m.append(version);
        m.append(
            ") is a placeholder; generate it with scripts/build_py312_zip.ps1 and rebuild",
        );
        Err(Error::PythonEnv(m))
    } else {
        Ok(())
    }
}

/// An extraction is current when the marker file holds the asset version,
/// give or take surrounding white space.
pub fn marker_is_current(marker_contents: &str, version: &str) -> (r: bool)
    ensures
        r == (trimmed(marker_contents@) == version@),
{
    let t = trim(marker_contents);
    let v = String::from_str(version);
    t == v
}

/// One step of setting up the Python runtime, carried out in order.
#[derive(Debug)]
pub enum SetupStep {
    /// Create this directory and its parents.
    CreateDir(FsPath),
    /// Extract the embedded runtime archive into this directory.
    ExtractRuntime(FsPath),
    /// Write the embedded `mtk.py` to this path.
    WriteMtkPy(FsPath),
    /// Write the asset version to this marker file.
    WriteMarker(FsPath),
}

/// What `ensure_python_env` does, given the embedded asset's version and the
/// marker file's contents (`None` when there is no marker; an unreadable one
/// counts as empty). A placeholder asset is refused before anything is
/// written; a current marker means nothing is to be done; otherwise the base
/// directory is created, the runtime extracted into it, `mtk.py` written,
/// and the marker written last.
pub fn runtime_setup(version: &str, marker_contents: Option<&str>, temp_root: &str) -> (r: Result<
    Vec<SetupStep>,
    Error,
>)
    ensures
        is_substring("placeholder"@, version@) ==> (r matches Err(Error::PythonEnv(m)) && m@
            == placeholder_message(version@)),
        !is_substring("placeholder"@, version@) && (marker_contents matches Some(c) && trimmed(
            c@,
        ) == version@) ==> (r matches Ok(steps) && steps@.len() == 0),
        !is_substring("placeholder"@, version@) && !(marker_contents matches Some(c) && trimmed(
            c@,
        ) == version@) ==> (r matches Ok(steps) && steps@.len() == 4 && (
        steps@[0] matches SetupStep::CreateDir(d) && d@ == spec_base_dir(temp_root@)) && (
        steps@[1] matches SetupStep::ExtractRuntime(d) && d@ == spec_base_dir(temp_root@)) && (
        steps@[2] matches SetupStep::WriteMtkPy(f) && f@ == (
            temp_root@,
            spec_base_dir(temp_root@).1.push("mtk.py"@),
        )) && (steps@[3] matches SetupStep::WriteMarker(f) && f@ == (
            temp_root@,
            spec_py_dir(temp_root@).1.push(".flashtool-pyver"@),
        ))),
{
    check_runtime_asset(version)?;
    if let Some(c) = marker_contents {
        if marker_is_current(c, version) {
            return Ok(Vec::new());
        }
    }
    let mut steps: Vec<SetupStep> = Vec::new();
    steps.push(SetupStep::CreateDir(base_dir(temp_root)));
    steps.push(SetupStep::ExtractRuntime(base_dir(temp_root)));
    steps.push(SetupStep::WriteMtkPy(mtk_py_path(temp_root)));
    steps.push(SetupStep::WriteMarker(marker_path(temp_root)));
    Ok(steps)
}

/// Probe output from `probe_python_env`.
#[derive(Debug)]
pub struct ProbeResult {
    pub python_path: FsPath,
    pub python_found: bool,
    pub cryptodome_ok: bool,
    pub cryptodome_output: String,
}

/// The arguments the interpreter is probed with.
pub fn probe_args() -> (r: Vec<String>)
    ensures
        r.deep_view() == seq!["-c"@, "import Cryptodome; print('Cryptodome OK')"@],
{
    let mut args: Vec<String> = Vec::new();
    args.push(String::from_str("-c"));
    args.push(String::from_str("import Cryptodome; print('Cryptodome OK')"));
    assert(args.deep_view() =~= seq!["-c"@, "import Cryptodome; print('Cryptodome OK')"@]);
    args
}

/// The standard output and standard error of a run, decoded leniently and
/// joined.
pub open spec fn combined_output(o: CommandOutput) -> Seq<char> {
    utf8_lossy(o.stdout@) + utf8_lossy(o.stderr@)
}

/// The probe's output keeps both streams, standard output first: it starts
/// with the decoded standard output, ends with the decoded standard error,
/// and is no longer than the two. So a run whose standard output shows
/// `Cryptodome OK` still shows it whatever its standard error holds.
pub proof fn lemma_probe_output_keeps_both_streams(o: CommandOutput)
    ensures
        combined_output(o).len() == utf8_lossy(o.stdout@).len() + utf8_lossy(o.stderr@).len(),
        combined_output(o).subrange(0, utf8_lossy(o.stdout@).len() as int) == utf8_lossy(
            o.stdout@,
        ),
        combined_output(o).subrange(
            utf8_lossy(o.stdout@).len() as int,
            combined_output(o).len() as int,
        ) == utf8_lossy(o.stderr@),
        is_substring("Cryptodome OK"@, utf8_lossy(o.stdout@)) ==> is_substring(
            "Cryptodome OK"@,
            combined_output(o),
        ),
{
    let a = utf8_lossy(o.stdout@);
    let b = utf8_lossy(o.stderr@);
    let c = combined_output(o);
    assert(c.subrange(0, a.len() as int) =~= a);
    assert(c.subrange(a.len() as int, c.len() as int) =~= b);
    if is_substring("Cryptodome OK"@, a) {
        let n = "Cryptodome OK"@.len();
        let i = choose|i: int| 0 <= i <= a.len() - n && #[trigger] a.subrange(i, i + n)
            == "Cryptodome OK"@;
        assert(c.subrange(i, i + n) =~= a.subrange(i, i + n));
    }
}

/// What a probe of the interpreter at `python_path` found. `run` is `None`
/// when `python.exe` does not exist; otherwise it is the outcome of running
/// it with `probe_args`, or the text of the error that kept it from starting. Cryptodome is available when the run succeeded and
/// its output contains `Cryptodome OK`.
pub fn probe_outcome(python_path: FsPath, run: Option<Result<CommandOutput, String>>) -> (r:
    ProbeResult)
    ensures
        r.python_path@ == python_path@,
        run is None ==> !r.python_found && !r.cryptodome_ok && r.cryptodome_output@
            == "python.exe not found in extracted environment"@,
        run matches Some(Err(t)) ==> r.python_found && !r.cryptodome_ok && r.cryptodome_output@
            == "Failed to run python.exe: "@ + t@,
        run matches Some(Ok(o)) ==> r.python_found && r.cryptodome_ok == (o.success
            && is_substring("Cryptodome OK"@, combined_output(o))) && r.cryptodome_output@
            == trimmed(combined_output(o)),
        run matches Some(Ok(o)) ==> r.cryptodome_ok == (o.success && is_substring(
            "Cryptodome OK"@,
            utf8_lossy(o.stdout@) + utf8_lossy(o.stderr@),
        )) && r.cryptodome_output@ == trimmed(utf8_lossy(o.stdout@) + utf8_lossy(o.stderr@)),
{
    match run {
        None => ProbeResult {
            python_path,
            python_found: false,
            cryptodome_ok: false,
            cryptodome_output: String::from_str("python.exe not found in extracted environment"),
        },
        Some(Ok(out)) => {
            let stdout = from_utf8_lossy(out.stdout.as_slice());
            let stderr = from_utf8_lossy(out.stderr.as_slice());
            let combined = stdout.concat(stderr.as_str());
            let ok = out.success && contains_str(combined.as_str(), "Cryptodome OK");
            ProbeResult {
                python_path,
                python_found: true,
                cryptodome_ok: ok,
                cryptodome_output: trim(combined.as_str()),
            }
        },
        Some(Err(t)) => {
            let m = String::from_str("Failed to run python.exe: ").concat(t.as_str());
            ProbeResult {
                python_path,
                python_found: true,
                cryptodome_ok: false,
                cryptodome_output: m,
            }
        },
    }
}

} // verus!
