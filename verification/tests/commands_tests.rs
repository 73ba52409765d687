use flashtool::commands::{detect, mtk_output, parse_loader, read_info, CommandOutput, LoaderOpt, MtkOpts};
use flashtool::error::Error;

#[test]
fn loader_option_auto_in_any_case() {
    assert!(matches!(parse_loader("auto"), LoaderOpt::Auto));
    assert!(matches!(parse_loader("AUTO"), LoaderOpt::Auto));
    assert!(matches!(parse_loader("AuTo"), LoaderOpt::Auto));
}

#[test]
fn loader_option_anything_else_is_a_path() {
    assert!(matches!(parse_loader("autos"), LoaderOpt::Path(p) if p == "autos"));
    assert!(matches!(parse_loader("C:\\x\\pl.bin"), LoaderOpt::Path(p) if p == "C:\\x\\pl.bin"));
    assert!(matches!(parse_loader(""), LoaderOpt::Path(p) if p.is_empty()));
}

#[test]
fn loader_option_defaults_to_auto() {
    assert!(matches!(LoaderOpt::default(), LoaderOpt::Auto));
}

#[test]
fn detect_arguments() {
    assert_eq!(detect("COM3"), vec!["detect", "--serialport", "COM3"]);
}

#[test]
fn read_info_arguments_without_loader() {
    let opts = MtkOpts { port: "/dev/ttyUSB0".to_string(), loader: LoaderOpt::Auto };
    assert_eq!(read_info(&opts, None), vec!["gettargetconfig", "--serialport", "/dev/ttyUSB0"]);
}

#[test]
fn read_info_arguments_with_loader() {
    let opts = MtkOpts { port: "COM4".to_string(), loader: LoaderOpt::Auto };
    assert_eq!(
        read_info(&opts, Some("/tmp/flashtool/pyenv/loaders/preloader_kl5_xk678.bin")),
        vec![
            "gettargetconfig",
            "--serialport",
            "COM4",
            "--loader",
            "/tmp/flashtool/pyenv/loaders/preloader_kl5_xk678.bin"
        ]
    );
}

#[test]
fn successful_run_returns_stdout_then_stderr() {
    let out = CommandOutput {
        success: true,
        code: Some(0),
        stdout: b"MTK device found\n".to_vec(),
        stderr: b"warning: slow port\n".to_vec(),
    };
    assert_eq!(mtk_output(&out).unwrap(), "MTK device found\nwarning: slow port\n");
}

#[test]
fn failed_run_reports_code_and_trimmed_stderr() {
    let out = CommandOutput {
        success: false,
        code: Some(2),
        stdout: b"partial".to_vec(),
        stderr: b"\n  Error: no device  \n".to_vec(),
    };
    match mtk_output(&out) {
        Err(Error::MtkCommand { code, stderr }) => {
            assert_eq!(code, 2);
            assert_eq!(stderr, "Error: no device");
        }
        other => panic!("unexpected {:?}", other),
    }
}

#[test]
fn killed_run_reports_minus_one() {
    let out = CommandOutput { success: false, code: None, stdout: vec![], stderr: vec![] };
    match mtk_output(&out) {
        Err(e) => {
            assert!(matches!(&e, Error::MtkCommand { code: -1, stderr } if stderr.is_empty()));
            assert_eq!(e.message(), "MTK command failed (exit -1): ");
        }
        Ok(_) => panic!("a killed run is a failure"),
    }
}

#[test]
fn invalid_utf8_output_is_replaced() {
    let out = CommandOutput {
        success: true,
        code: Some(0),
        stdout: vec![b'o', b'k', 0xff],
        stderr: vec![],
    };
    assert_eq!(mtk_output(&out).unwrap(), "ok\u{fffd}");
}
