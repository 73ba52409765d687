use std::path::PathBuf;

use flashtool::commands::CommandOutput;
use flashtool::error::Error;
use flashtool::paths::{
    base_dir, marker_path, mtk_py_path, py_dir, python_exe, windows_temp_root, FsPath,
};
use flashtool::python_runner::{
    check_runtime_asset, marker_is_current, probe_args, probe_outcome, runtime_setup, SetupStep,
};

/// The temp root used on platforms other than Windows.
const TEMP_ROOT: &str = "/tmp";

fn to_path(p: &FsPath) -> PathBuf {
    let mut out = PathBuf::from(&p.root);
    for part in &p.parts {
        out.push(part);
    }
    out
}

/// Verify that py_dir() is a subdirectory of the temp base.
#[test]
fn py_dir_is_inside_temp() {
    let dir = to_path(&py_dir(TEMP_ROOT));
    let dir_str = dir.to_string_lossy();
    assert!(
        dir_str.contains("flashtool"),
        "py_dir should be under a flashtool temp directory, got {dir_str}"
    );
    assert!(
        dir_str.contains("python312"),
        "py_dir should end with python312, got {dir_str}"
    );
}

/// Path helpers must return plausible values regardless of platform.
#[test]
fn path_helpers_return_expected_components() {
    let exe = to_path(&python_exe(TEMP_ROOT));
    assert!(
        exe.to_string_lossy().contains("python312"),
        "python_exe() should contain 'python312', got: {}",
        exe.display()
    );
    let mtk = to_path(&mtk_py_path(TEMP_ROOT));
    assert!(
        mtk.file_name().map(|n| n == "mtk.py").unwrap_or(false),
        "mtk_py_path() should end with 'mtk.py', got: {}",
        mtk.display()
    );
}

#[test]
fn layout_under_the_temp_root() {
    assert_eq!(to_path(&base_dir("/tmp")), PathBuf::from("/tmp/flashtool/pyenv"));
    assert_eq!(to_path(&py_dir("/tmp")), PathBuf::from("/tmp/flashtool/pyenv/python312"));
    assert_eq!(
        to_path(&python_exe("/tmp")),
        PathBuf::from("/tmp/flashtool/pyenv/python312/python.exe")
    );
    assert_eq!(to_path(&mtk_py_path("/tmp")), PathBuf::from("/tmp/flashtool/pyenv/mtk.py"));
    assert_eq!(
        to_path(&marker_path("/tmp")),
        PathBuf::from("/tmp/flashtool/pyenv/python312/.flashtool-pyver")
    );
}

/// The version of the runtime asset that the repository ships.
const PLACEHOLDER_VERSION: &str = "py312-win64-placeholder-0.1.0";

/// When the placeholder asset is embedded, the runtime must be refused with a
/// PythonEnv error pointing to the build script rather than extracted.
#[test]
fn ensure_python_env_rejects_placeholder() {
    let result = check_runtime_asset(PLACEHOLDER_VERSION);
    assert!(result.is_err(), "expected error for placeholder asset");
    let err_msg = result.unwrap_err().message();
    assert!(
        err_msg.contains("placeholder"),
        "error should mention 'placeholder', got: {err_msg}"
    );
    assert!(
        err_msg.contains("build_py312_zip"),
        "error should reference the build script, got: {err_msg}"
    );
}

/// Checking the placeholder twice must return the same error both times
/// (idempotent failure).
#[test]
fn ensure_python_env_placeholder_idempotent() {
    let first = check_runtime_asset(PLACEHOLDER_VERSION);
    let second = check_runtime_asset(PLACEHOLDER_VERSION);
    assert!(first.is_err(), "first call should error on placeholder");
    assert!(second.is_err(), "second call should also error on placeholder");
    // Both errors should be PythonEnv variants
    assert!(matches!(first.unwrap_err(), Error::PythonEnv(_)));
    assert!(matches!(second.unwrap_err(), Error::PythonEnv(_)));
}

#[test]
fn real_runtime_is_accepted() {
    assert!(check_runtime_asset("py312-win64-3.12.10-1").is_ok());
}

#[test]
fn marker_matches_after_trimming() {
    assert!(marker_is_current("py312-win64-3.12.10-1\n", "py312-win64-3.12.10-1"));
    assert!(marker_is_current("  py312-win64-3.12.10-1\r\n", "py312-win64-3.12.10-1"));
    assert!(!marker_is_current("py312-win64-3.12.9-1", "py312-win64-3.12.10-1"));
    assert!(!marker_is_current("", "py312-win64-3.12.10-1"));
}

#[test]
fn probe_arguments_import_cryptodome() {
    assert_eq!(probe_args(), vec!["-c", "import Cryptodome; print('Cryptodome OK')"]);
}

fn output(success: bool, stdout: &str, stderr: &str) -> CommandOutput {
    CommandOutput {
        success,
        code: Some(if success { 0 } else { 1 }),
        stdout: stdout.as_bytes().to_vec(),
        stderr: stderr.as_bytes().to_vec(),
    }
}

#[test]
fn probe_without_python_reports_not_found() {
    let r = probe_outcome(python_exe(TEMP_ROOT), None);
    assert!(!r.python_found);
    assert!(!r.cryptodome_ok);
    assert_eq!(r.cryptodome_output, "python.exe not found in extracted environment");
    assert_eq!(r.python_path.parts.last().unwrap(), "python.exe");
}

#[test]
fn probe_with_cryptodome_reports_ok() {
    let r = probe_outcome(python_exe(TEMP_ROOT), Some(Ok(output(true, "Cryptodome OK\n", ""))));
    assert!(r.python_found);
    assert!(r.cryptodome_ok);
    assert_eq!(r.cryptodome_output, "Cryptodome OK");
}

#[test]
fn probe_with_failed_import_reports_not_ok() {
    let r = probe_outcome(
        python_exe(TEMP_ROOT),
        Some(Ok(output(false, "", "ModuleNotFoundError: No module named 'Cryptodome'\n"))),
    );
    assert!(r.python_found);
    assert!(!r.cryptodome_ok);
    assert_eq!(r.cryptodome_output, "ModuleNotFoundError: No module named 'Cryptodome'");
}

#[test]
fn probe_needs_a_successful_exit_even_with_the_text() {
    let r = probe_outcome(python_exe(TEMP_ROOT), Some(Ok(output(false, "Cryptodome OK", ""))));
    assert!(!r.cryptodome_ok);
}

#[test]
fn probe_that_cannot_start_python_reports_the_error() {
    let e = std::io::Error::new(std::io::ErrorKind::NotFound, "no such file");
    let r = probe_outcome(python_exe(TEMP_ROOT), Some(Err(e.to_string())));
    assert!(r.python_found);
    assert!(!r.cryptodome_ok);
    assert_eq!(r.cryptodome_output, "Failed to run python.exe: no such file");
}

#[test]
fn windows_temp_root_falls_back_from_temp_to_tmp_to_c_temp() {
    assert_eq!(
        windows_temp_root(Some("D:\\t".to_string()), Some("E:\\u".to_string())),
        "D:\\t"
    );
    assert_eq!(windows_temp_root(None, Some("E:\\u".to_string())), "E:\\u");
    assert_eq!(windows_temp_root(None, None), "C:\\Temp");
}

#[test]
fn duplicated_path_is_equal() {
    let p = marker_path("/tmp");
    let q = p.duplicate();
    assert_eq!(q.root, p.root);
    assert_eq!(q.parts, p.parts);
}

#[test]
fn setup_refuses_the_placeholder_before_anything_else() {
    let r = runtime_setup(PLACEHOLDER_VERSION, None, TEMP_ROOT);
    assert!(matches!(r, Err(Error::PythonEnv(_))));
    let r = runtime_setup(PLACEHOLDER_VERSION, Some(PLACEHOLDER_VERSION), TEMP_ROOT);
    assert!(matches!(r, Err(Error::PythonEnv(_))));
}

#[test]
fn setup_does_nothing_when_the_marker_is_current() {
    let steps = runtime_setup("py312-win64-3.12.10-1", Some("py312-win64-3.12.10-1\n"), TEMP_ROOT)
        .unwrap();
    assert!(steps.is_empty());
}

#[test]
fn setup_extracts_then_writes_mtk_py_then_the_marker() {
    for marker in [None, Some(""), Some("py312-win64-3.12.9-1")] {
        let steps = runtime_setup("py312-win64-3.12.10-1", marker, TEMP_ROOT).unwrap();
        assert_eq!(steps.len(), 4);
        assert!(matches!(&steps[0], SetupStep::CreateDir(d)
            if to_path(d) == PathBuf::from("/tmp/flashtool/pyenv")));
        assert!(matches!(&steps[1], SetupStep::ExtractRuntime(d)
            if to_path(d) == PathBuf::from("/tmp/flashtool/pyenv")));
        assert!(matches!(&steps[2], SetupStep::WriteMtkPy(f)
            if to_path(f) == PathBuf::from("/tmp/flashtool/pyenv/mtk.py")));
        assert!(matches!(&steps[3], SetupStep::WriteMarker(f)
            if to_path(f) == PathBuf::from("/tmp/flashtool/pyenv/python312/.flashtool-pyver")));
    }
}
